//! The step driver: one instruction at a time, with the ULA's ports
//! answered before the opcode engine is asked, the 50 Hz interrupt injected
//! after it, and the debugger's books kept.

use crate::bus::{port_value, ZxBus};
use crate::disasm::{base_text, disassemble, disassembled, stack_pair_name};
use crate::engine::{
    addr_add, byte_at, can_execute, engine_memory, engine_outcome, engine_quiet, engine_ready,
    engine_registers, engine_rom, engine_wf, execute, fetch, fetch_window, hi,
    lemma_written_range_overlays, lo, new_engine, overlaid, read, registers, rom_kept,
    set_registers, write_range, written, Registers, MEMORY_SIZE,
};
use crate::stack_tracker::{newest_for, recorded, StackTracker, StackWrite, StackWriteKind};
use crate::text::starts_with;
use std::collections::{HashMap, HashSet};
use vstd::prelude::*;
use zilog_z80::cpu::CPU;

verus! {

broadcast use vstd::std_specs::hash::group_hash_axioms;

/// The most that the cycle counter may hold before a step, so that any
/// count of cycles can be added to it.
pub const T_STATES_LIMIT: u64 = 0xFFFF_FFFF_0000_0000;

/// The address that accepting an interrupt in mode 1 jumps to.
pub const INTERRUPT_VECTOR: u16 = 0x0038;

/// Bytes in the memory window of a snapshot.
pub const MEM_DUMP_SIZE: usize = 512;

/// Bytes in the stack window of a snapshot.
pub const STACK_DUMP_SIZE: usize = 32;

/// What the debugger shows after a step: the registers, the flags before
/// and after, a window of memory around the instruction and one at the top
/// of the stack.
#[derive(Clone, Debug)]
pub struct CpuSnapshot {
    pub pc: u16,
    pub sp: u16,
    pub af: u16,
    pub bc: u16,
    pub de: u16,
    pub hl: u16,
    pub af_: u16,
    pub bc_: u16,
    pub de_: u16,
    pub hl_: u16,
    pub i: u8,
    pub r: u8,
    pub f: u8,
    pub f_before: u8,
    pub from_step: bool,
    pub mem_addr: u16,
    pub mem_value: u8,
    pub mem_base: u16,
    pub mem_dump: Vec<u8>,
    pub stack_base: u16,
    pub stack_dump: Vec<u8>,
    pub instr_len: u8,
    pub instr_cycles: u32,
}

/// What the machine keeps beside the engine: the halt and interrupt state
/// and the count of T-states.
#[derive(Copy, Clone, Debug, PartialEq, Eq, Structural)]
pub struct CpuRunState {
    pub halted: bool,
    pub iff1: bool,
    pub iff1_pending: bool,
    pub iff1_delay: u8,
    pub im: u8,
    pub t_states: u64,
    pub allow_interrupts: bool,
}

/// The addresses of the instructions that were reported as unimplemented.
pub struct UnimplTracker {
    seen: HashSet<u16>,
}

/// The way a step goes.
pub enum StepPath {
    /// The machine is halted and no interrupt wakes it.
    Idle,
    /// `IN A,(n)` on a port of the ULA.
    PortA,
    /// `IN r,(C)` on a port of the ULA.
    PortC,
    /// The opcode engine runs the instruction.
    Engine,
}

/// The first address of the memory window for an instruction at `pc`: 128
/// bytes before it, but not before address zero.
pub open spec fn dump_base(pc: u16) -> u16 {
    if pc >= 128 {
        (pc - 128) as u16
    } else {
        0
    }
}

/// `len` bytes of memory from `base` on, wrapping at the top of memory.
pub open spec fn dump(memory: Seq<u8>, base: u16, len: nat) -> Seq<u8> {
    Seq::new(len, |i: int| byte_at(memory, addr_add(base, i)))
}

impl CpuSnapshot {
    /// Whether the snapshot shows the given registers and memory for an
    /// instruction at `pc`.
    pub open spec fn shows(
        &self,
        r: Registers,
        memory: Seq<u8>,
        pc: u16,
        from_step: bool,
        f_before: u8,
        instr_len: u8,
        instr_cycles: u32,
    ) -> bool {
        &&& self.pc == pc
        &&& self.sp == r.sp
        &&& self.af == r.af
        &&& self.bc == r.bc
        &&& self.de == r.de
        &&& self.hl == r.hl
        &&& self.af_ == r.af_
        &&& self.bc_ == r.bc_
        &&& self.de_ == r.de_
        &&& self.hl_ == r.hl_
        &&& self.i == r.i
        &&& self.r == r.r
        &&& self.f == lo(r.af)
        &&& self.f_before == f_before
        &&& self.from_step == from_step
        &&& self.mem_addr == pc
        &&& self.mem_value == byte_at(memory, pc)
        &&& self.mem_base == dump_base(pc)
        &&& self.mem_dump@ == dump(memory, dump_base(pc), MEM_DUMP_SIZE as nat)
        &&& self.stack_base == r.sp
        &&& self.stack_dump@ == dump(memory, r.sp, STACK_DUMP_SIZE as nat)
        &&& self.instr_len == instr_len
        &&& self.instr_cycles == instr_cycles
    }
}

impl CpuRunState {
    /// A machine that runs, with interrupts enabled in mode 1.
    pub fn new() -> (s: Self)
        ensures
            s == (CpuRunState {
                halted: false,
                iff1: true,
                iff1_pending: false,
                iff1_delay: 0,
                im: 1,
                t_states: 0,
                allow_interrupts: true,
            }),
    {
        CpuRunState {
            halted: false,
            iff1: true,
            iff1_pending: false,
            iff1_delay: 0,
            im: 1,
            t_states: 0,
            allow_interrupts: true,
        }
    }
}

impl UnimplTracker {
    /// The addresses reported so far.
    pub closed spec fn view(&self) -> Set<u16> {
        self.seen@
    }

    pub fn new() -> (t: Self)
        ensures
            t@ == Set::<u16>::empty(),
    {
        UnimplTracker { seen: HashSet::new() }
    }

    pub fn clear(&mut self)
        ensures
            final(self)@ == Set::<u16>::empty(),
    {
        self.seen.clear();
    }

    /// Notes an unimplemented instruction at `pc` and tells whether this is
    /// its first report.
    pub fn report(&mut self, pc: u16) -> (first: bool)
        ensures
            final(self)@ == old(self)@.insert(pc),
            first == !old(self)@.contains(pc),
    {
        self.seen.insert(pc)
    }
}

/// The word with its high byte replaced.
pub open spec fn with_hi(w: u16, v: u8) -> u16 {
    (v as int * 256 + w as int % 256) as u16
}

/// The word with its low byte replaced.
pub open spec fn with_lo(w: u16, v: u8) -> u16 {
    ((w as int / 256) * 256 + v as int) as u16
}

/// The number of bits that are set in a byte.
pub open spec fn bit_count(v: int) -> int
    decreases v,
{
    if v <= 0 {
        0
    } else {
        v % 2 + bit_count(v / 2)
    }
}

/// The flags after `IN r,(C)` has read `value`: S is its top bit, Z tells
/// zero, P/V tells even parity, H and N are clear, and C stays as it was.
pub open spec fn in_flags(value: u8, f_before: u8) -> u8 {
    ((if value >= 0x80 {
        0x80int
    } else {
        0int
    }) + (if value == 0 {
        0x40int
    } else {
        0int
    }) + (if bit_count(value as int) % 2 == 0 {
        0x04int
    } else {
        0int
    }) + f_before as int % 2) as u8
}

/// The way a step goes from the given state, with `window` the four bytes
/// at the program counter.
pub open spec fn step_path(
    run: CpuRunState,
    interrupt_pending: bool,
    r: Registers,
    window: Seq<u8>,
) -> StepPath {
    if run.halted && !(interrupt_pending && run.iff1) {
        StepPath::Idle
    } else if window[0] == 0xDB && window[1] % 2 == 0 {
        StepPath::PortA
    } else if window[0] == 0xED && 0x40 <= window[1] < 0x80 && window[1] % 8 == 0 && r.bc % 2
        == 0 {
        StepPath::PortC
    } else {
        StepPath::Engine
    }
}

/// The registers after `IN A,(n)` has read `value`.
pub open spec fn port_a_registers(r: Registers, value: u8) -> Registers {
    Registers { af: with_hi(r.af, value), pc: addr_add(r.pc, 2), ..r }
}

/// The registers after `IN r,(C)` with opcode byte `op` has read `value`.
/// Bits 3 to 5 of `op` select B, C, D, E, H, L, nothing, or A.
pub open spec fn port_c_registers(r: Registers, op: u8, value: u8) -> Registers {
    let sel = (op as int / 8) % 8;
    let loaded = if sel == 0 {
        Registers { bc: with_hi(r.bc, value), ..r }
    } else if sel == 1 {
        Registers { bc: with_lo(r.bc, value), ..r }
    } else if sel == 2 {
        Registers { de: with_hi(r.de, value), ..r }
    } else if sel == 3 {
        Registers { de: with_lo(r.de, value), ..r }
    } else if sel == 4 {
        Registers { hl: with_hi(r.hl, value), ..r }
    } else if sel == 5 {
        Registers { hl: with_lo(r.hl, value), ..r }
    } else if sel == 7 {
        Registers { af: with_hi(r.af, value), ..r }
    } else {
        r
    };
    Registers {
        af: with_lo(loaded.af, in_flags(value, lo(r.af))),
        pc: addr_add(r.pc, 2),
        ..loaded
    }
}

/// The run state once the instruction with first byte `opcode` has run. A
/// pending EI takes effect when its delay is over; then EI arms the next
/// one, DI disables at once, HALT halts.
pub open spec fn settled(run: CpuRunState, opcode: u8) -> CpuRunState {
    let due = if run.iff1_pending {
        if run.iff1_delay <= 1 {
            CpuRunState { iff1: true, iff1_pending: false, iff1_delay: 0, ..run }
        } else {
            CpuRunState { iff1_delay: (run.iff1_delay - 1) as u8, ..run }
        }
    } else {
        run
    };
    if opcode == 0xFB {
        CpuRunState { iff1_pending: true, iff1_delay: 1, ..due }
    } else if opcode == 0xF3 {
        CpuRunState { iff1: false, iff1_pending: false, ..due }
    } else if opcode == 0x76 {
        CpuRunState { halted: true, ..due }
    } else {
        due
    }
}

/// Whether the step accepts the interrupt.
pub open spec fn injects(run: CpuRunState, opcode: u8, interrupt_pending: bool) -> bool {
    interrupt_pending && settled(run, opcode).iff1 && settled(run, opcode).allow_interrupts
}

/// The T-states that a step charges for the engine's count: a count of
/// zero is charged as one.
pub open spec fn charged(cycles: u32) -> u32 {
    if cycles == 0 {
        1
    } else {
        cycles
    }
}

/// The run state at the end of a step through the engine.
pub open spec fn finished_run(
    run: CpuRunState,
    opcode: u8,
    interrupt_pending: bool,
    cycles: u32,
) -> CpuRunState {
    let s = settled(run, opcode);
    if injects(run, opcode, interrupt_pending) {
        CpuRunState { halted: false, iff1: false, t_states: (s.t_states + 13) as u64, ..s }
    } else {
        CpuRunState { t_states: (s.t_states + charged(cycles)) as u64, ..s }
    }
}

/// The registers at the end of a step through the engine: accepting the
/// interrupt moves the stack pointer down by two and jumps to 0x0038.
pub open spec fn finished_registers(r: Registers, inject: bool) -> Registers {
    if inject {
        Registers { sp: addr_add(r.sp, -2), pc: INTERRUPT_VECTOR, ..r }
    } else {
        r
    }
}

/// The memory at the end of a step through the engine: accepting the
/// interrupt pushes the program counter, low byte at the new top of the
/// stack and high byte above it.
pub open spec fn finished_memory(
    memory: Seq<u8>,
    rom: Option<(u16, u16)>,
    r: Registers,
    inject: bool,
) -> Seq<u8> {
    if inject {
        written(
            written(memory, rom, addr_add(r.sp, -2), lo(r.pc)),
            rom,
            addr_add(r.sp, -1),
            hi(r.pc),
        )
    } else {
        memory
    }
}

/// Whether the instruction in `window`, whose mnemonic is `text`, is one
/// that the machine does not carry out in full: one that the disassembler
/// marks so, and `IM 2`, since interrupts are only ever taken in mode 1.
pub open spec fn is_unimplemented(window: Seq<u8>, text: Seq<char>) -> bool {
    begins_with(text, "UNIMPL"@) || (window[0] == 0xED && window[1] == 0x5E)
}

/// Whether `text` begins with `prefix`.
pub open spec fn begins_with(text: Seq<char>, prefix: Seq<char>) -> bool {
    prefix.len() <= text.len() && text.take(prefix.len() as int) == prefix
}

/// The cause that is logged for the stack writes of an instruction, by its
/// mnemonic.
pub open spec fn provenance(mnemonic: Seq<char>) -> StackWriteKind {
    if begins_with(mnemonic, "CALL"@) || begins_with(mnemonic, "RST"@) {
        StackWriteKind::Call
    } else if begins_with(mnemonic, "PUSH"@) {
        StackWriteKind::Push
    } else {
        StackWriteKind::Manual
    }
}

/// The log after the entries for `count` bytes from `start` upwards.
pub open spec fn recorded_span(
    log: Seq<StackWrite>,
    limit: int,
    start: u16,
    count: int,
    kind: StackWriteKind,
    pc: u16,
) -> Seq<StackWrite>
    decreases count,
{
    if count <= 0 {
        log
    } else {
        recorded(
            recorded_span(log, limit, start, count - 1, kind, pc),
            limit,
            (StackWrite { addr: addr_add(start, count - 1), kind, pc }),
        )
    }
}

/// The log at the end of a step through the engine. Where the stack
/// pointer came down and no interrupt was accepted, each byte between the
/// new and the old top of the stack gets an entry.
pub open spec fn finished_log(
    log: Seq<StackWrite>,
    limit: int,
    sp_before: u16,
    sp_after: u16,
    inject: bool,
    mnemonic: Seq<char>,
    pc: u16,
) -> Seq<StackWrite> {
    if !inject && sp_after < sp_before {
        recorded_span(log, limit, sp_after, sp_before - sp_after, provenance(mnemonic), pc)
    } else {
        log
    }
}

/// Whether `after` is `before` with the instruction at `pc` entered.
pub open spec fn entered(
    before: Map<u16, (u8, String)>,
    after: Map<u16, (u8, String)>,
    pc: u16,
    len: u8,
    mnemonic: Seq<char>,
) -> bool {
    &&& after.dom() == before.dom().insert(pc)
    &&& after[pc].0 == len
    &&& after[pc].1@ == mnemonic
    &&& forall|k: u16| k != pc && before.contains_key(k) ==> after[k] == before[k]
}

fn set_hi(w: u16, v: u8) -> (r: u16)
    ensures
        r == with_hi(w, v),
{
    v as u16 * 256 + w % 256
}

fn set_lo(w: u16, v: u8) -> (r: u16)
    ensures
        r == with_lo(w, v),
{
    (w / 256) * 256 + v as u16
}

/// Tells whether an even number of bits is set in the byte.
pub fn parity_even(value: u8) -> (even: bool)
    ensures
        even == (bit_count(value as int) % 2 == 0),
{
    let count = value % 2 + (value / 2) % 2 + (value / 4) % 2 + (value / 8) % 2 + (value / 16) % 2
        + (value / 32) % 2 + (value / 64) % 2 + value / 128;
    proof {
        reveal_with_fuel(bit_count, 9);
        assert(count == bit_count(value as int));
    }
    count % 2 == 0
}

/// Takes a snapshot of the engine for the debugger. `pc` is the address of
/// the instruction that the snapshot is about.
pub fn snapshot(
    cpu: &CPU,
    pc: u16,
    from_step: bool,
    f_before: u8,
    instr_len: u8,
    instr_cycles: u32,
) -> (s: CpuSnapshot)
    ensures
        s.shows(
            engine_registers(*cpu),
            engine_memory(*cpu),
            pc,
            from_step,
            f_before,
            instr_len,
            instr_cycles,
        ),
{
    let r = registers(cpu);
    let mem_base = pc.saturating_sub(128);
    let mem_dump = read_dump(cpu, mem_base, MEM_DUMP_SIZE);
    let stack_dump = read_dump(cpu, r.sp, STACK_DUMP_SIZE);
    CpuSnapshot {
        pc,
        sp: r.sp,
        af: r.af,
        bc: r.bc,
        de: r.de,
        hl: r.hl,
        af_: r.af_,
        bc_: r.bc_,
        de_: r.de_,
        hl_: r.hl_,
        i: r.i,
        r: r.r,
        f: (r.af % 256) as u8,
        f_before,
        from_step,
        mem_addr: pc,
        mem_value: read(cpu, pc),
        mem_base,
        mem_dump,
        stack_base: r.sp,
        stack_dump,
        instr_len,
        instr_cycles,
    }
}

fn read_dump(cpu: &CPU, base: u16, len: usize) -> (bytes: Vec<u8>)
    requires
        len <= 0x10000,
    ensures
        bytes@ == dump(engine_memory(*cpu), base, len as nat),
{
    let mut bytes: Vec<u8> = Vec::with_capacity(len);
    let mut addr: u16 = base;
    let mut i: usize = 0;
    while i < len
        invariant
            i <= len,
            len <= 0x10000,
            addr == addr_add(base, i as int),
            bytes@ == dump(engine_memory(*cpu), base, i as nat),
        decreases len - i,
    {
        bytes.push(read(cpu, addr));
        addr = addr.wrapping_add(1);
        i = i + 1;
        assert(bytes@ =~= dump(engine_memory(*cpu), base, i as nat));
    }
    bytes
}

fn provenance_of(mnemonic: &str) -> (kind: StackWriteKind)
    ensures
        kind == provenance(mnemonic@),
{
    if starts_with(mnemonic, "CALL") || starts_with(mnemonic, "RST") {
        StackWriteKind::Call
    } else if starts_with(mnemonic, "PUSH") {
        StackWriteKind::Push
    } else {
        StackWriteKind::Manual
    }
}

fn enter(executed: &mut HashMap<u16, (u8, String)>, pc: u16, len: u8, mnemonic: String)
    ensures
        entered(old(executed)@, final(executed)@, pc, len, mnemonic@),
{
    let _ = executed.insert(pc, (len, mnemonic));
}

/// Ends a step after the opcode engine has run the instruction at
/// `pc_before`, whose first byte is `opcode`. `cpu` is the engine as the
/// instruction left it and `cycles` the count that the engine returned;
/// `sp_before` and `f_before` were read before the instruction ran.
///
/// A pending EI takes effect, the opcode is looked at for EI, DI and HALT,
/// and then either the interrupt is accepted (the program counter is
/// pushed, the machine jumps to 0x0038, 13 T-states are charged) or the
/// stack writes are logged, the instruction's cycles are charged and the
/// instruction is entered in the map of executed instructions.
pub fn finish_step(
    cpu: &mut CPU,
    run_state: &mut CpuRunState,
    interrupt_pending: bool,
    executed: &mut HashMap<u16, (u8, String)>,
    stack_tracker: &mut StackTracker,
    pc_before: u16,
    sp_before: u16,
    f_before: u8,
    opcode: u8,
    mnemonic: String,
    instr_len: u8,
    cycles: u32,
    from_step: bool,
) -> (snap: CpuSnapshot)
    requires
        old(run_state).t_states <= T_STATES_LIMIT,
    ensures
        *final(run_state) == finished_run(*old(run_state), opcode, interrupt_pending, cycles),
        engine_registers(*final(cpu)) == finished_registers(
            engine_registers(*old(cpu)),
            injects(*old(run_state), opcode, interrupt_pending),
        ),
        engine_memory(*final(cpu)) == finished_memory(
            engine_memory(*old(cpu)),
            engine_rom(*old(cpu)),
            engine_registers(*old(cpu)),
            injects(*old(run_state), opcode, interrupt_pending),
        ),
        engine_rom(*final(cpu)) == engine_rom(*old(cpu)),
        engine_quiet(*final(cpu)) == engine_quiet(*old(cpu)),
        final(stack_tracker).limit() == old(stack_tracker).limit(),
        final(stack_tracker)@ == finished_log(
            old(stack_tracker)@,
            old(stack_tracker).limit(),
            sp_before,
            engine_registers(*old(cpu)).sp,
            injects(*old(run_state), opcode, interrupt_pending),
            mnemonic@,
            pc_before,
        ),
        if injects(*old(run_state), opcode, interrupt_pending) {
            &&& final(executed)@ == old(executed)@
            &&& snap.shows(
                engine_registers(*final(cpu)),
                engine_memory(*final(cpu)),
                engine_registers(*old(cpu)).pc,
                false,
                f_before,
                0,
                13,
            )
        } else {
            &&& entered(old(executed)@, final(executed)@, pc_before, instr_len, mnemonic@)
            &&& snap.shows(
                engine_registers(*final(cpu)),
                engine_memory(*final(cpu)),
                pc_before,
                from_step,
                f_before,
                instr_len,
                charged(cycles),
            )
        },
{
    if run_state.iff1_pending {
        if run_state.iff1_delay <= 1 {
            run_state.iff1_delay = 0;
            run_state.iff1 = true;
            run_state.iff1_pending = false;
        } else {
            run_state.iff1_delay = run_state.iff1_delay - 1;
        }
    }
    if opcode == 0xFB {
        run_state.iff1_pending = true;
        run_state.iff1_delay = 1;
    } else if opcode == 0xF3 {
        run_state.iff1 = false;
        run_state.iff1_pending = false;
    } else if opcode == 0x76 {
        run_state.halted = true;
    }
    assert(*run_state == settled(*old(run_state), opcode));

    let mut r = registers(cpu);
    if interrupt_pending && run_state.iff1 && run_state.allow_interrupts {
        run_state.halted = false;
        run_state.iff1 = false;
        let pc_at_int = r.pc;
        let sp = r.sp.wrapping_sub(2);
        crate::engine::write(cpu, sp, (pc_at_int % 256) as u8);
        crate::engine::write(cpu, sp.wrapping_add(1), (pc_at_int / 256) as u8);
        r.sp = sp;
        r.pc = INTERRUPT_VECTOR;
        set_registers(cpu, &r);
        run_state.t_states = run_state.t_states + 13;
        return snapshot(cpu, pc_at_int, false, f_before, 0, 13);
    }
    let sp_after = r.sp;
    if sp_after < sp_before {
        let kind = provenance_of(mnemonic.as_str());
        let count = sp_before - sp_after;
        let mut i: u16 = 0;
        while i < count
            invariant
                i <= count,
                count == sp_before - sp_after,
                sp_after < sp_before,
                stack_tracker.limit() == old(stack_tracker).limit(),
                stack_tracker@ == recorded_span(
                    old(stack_tracker)@,
                    old(stack_tracker).limit(),
                    sp_after,
                    i as int,
                    kind,
                    pc_before,
                ),
            decreases count - i,
        {
            stack_tracker.record(sp_after + i, kind, pc_before);
            i = i + 1;
        }
    }
    let effective = if cycles == 0 {
        1
    } else {
        cycles
    };
    run_state.t_states = run_state.t_states + effective as u64;
    enter(executed, pc_before, instr_len, mnemonic);
    snapshot(cpu, pc_before, from_step, f_before, instr_len, effective)
}

/// Whether a step from the given state can be taken: where it goes
/// through the engine, the engine must be able to run the instruction.
pub open spec fn can_step(cpu: CPU, run: CpuRunState, interrupt_pending: bool) -> bool {
    let r = engine_registers(cpu);
    let window = fetch_window(engine_memory(cpu), r.pc);
    step_path(run, interrupt_pending, r, window) is Engine ==> engine_ready(r, window)
}

/// What a step leaves behind, given the state before it. On the engine's
/// path the registers, the memory and the cycle count come from
/// `engine_outcome`.
pub open spec fn step_done(
    cpu0: CPU,
    cpu1: CPU,
    rows: Seq<u8>,
    run0: CpuRunState,
    run1: CpuRunState,
    interrupt_pending: bool,
    executed0: Map<u16, (u8, String)>,
    executed1: Map<u16, (u8, String)>,
    unimpl0: Set<u16>,
    unimpl1: Set<u16>,
    log0: Seq<StackWrite>,
    log1: Seq<StackWrite>,
    limit: int,
    from_step: bool,
    snap: CpuSnapshot,
) -> bool {
    let r0 = engine_registers(cpu0);
    let m0 = engine_memory(cpu0);
    let window = fetch_window(m0, r0.pc);
    let text = disassembled(window, r0.pc, r0.pc).0;
    let len = disassembled(window, r0.pc, r0.pc).1;
    let f0 = lo(r0.af);
    let awake = CpuRunState { halted: false, ..run0 };
    let noted = if is_unimplemented(window, text) {
        unimpl0.insert(r0.pc)
    } else {
        unimpl0
    };
    match step_path(run0, interrupt_pending, r0, window) {
        StepPath::Idle => {
            &&& run1 == CpuRunState { t_states: (run0.t_states + 4) as u64, ..run0 }
            &&& engine_registers(cpu1) == r0
            &&& engine_memory(cpu1) == m0
            &&& executed1 == executed0
            &&& unimpl1 == unimpl0
            &&& log1 == log0
            &&& snap.shows(r0, m0, r0.pc, false, f0, 0, 4)
        },
        StepPath::PortA => {
            let value = port_value(rows, ((r0.af / 256) * 256 + window[1]) as u16);
            &&& run1 == CpuRunState { t_states: (run0.t_states + 11) as u64, ..awake }
            &&& engine_registers(cpu1) == port_a_registers(r0, value)
            &&& engine_memory(cpu1) == m0
            &&& entered(executed0, executed1, r0.pc, 2, text)
            &&& unimpl1 == noted
            &&& log1 == log0
            &&& snap.shows(engine_registers(cpu1), m0, r0.pc, false, f0, 2, 11)
        },
        StepPath::PortC => {
            let value = port_value(rows, r0.bc);
            &&& run1 == CpuRunState { t_states: (run0.t_states + 12) as u64, ..awake }
            &&& engine_registers(cpu1) == port_c_registers(r0, window[1], value)
            &&& engine_memory(cpu1) == m0
            &&& entered(executed0, executed1, r0.pc, 2, text)
            &&& unimpl1 == noted
            &&& log1 == log0
            &&& snap.shows(engine_registers(cpu1), m0, r0.pc, false, f0, 2, 12)
        },
        StepPath::Engine => {
            let out = engine_outcome(cpu0);
            let inject = injects(awake, window[0], interrupt_pending);
            &&& run1 == finished_run(awake, window[0], interrupt_pending, out.cycles)
            &&& engine_registers(cpu1) == finished_registers(out.registers, inject)
            &&& engine_memory(cpu1) == finished_memory(
                out.memory,
                engine_rom(cpu0),
                out.registers,
                inject,
            )
            &&& unimpl1 == noted
            &&& log1 == finished_log(log0, limit, r0.sp, out.registers.sp, inject, text, r0.pc)
            &&& if inject {
                &&& executed1 == executed0
                &&& snap.shows(
                    engine_registers(cpu1),
                    engine_memory(cpu1),
                    out.registers.pc,
                    false,
                    f0,
                    0,
                    13,
                )
            } else {
                &&& entered(executed0, executed1, r0.pc, len, text)
                &&& snap.shows(
                    engine_registers(cpu1),
                    engine_memory(cpu1),
                    r0.pc,
                    from_step,
                    f0,
                    len,
                    charged(out.cycles),
                )
            }
        },
    }
}

/// Runs one instruction.
///
/// A halted machine that no interrupt wakes only counts 4 T-states. `IN`
/// on a port of the ULA is answered from `zx_bus`, for 11 T-states
/// (`IN A,(n)`) or 12 (`IN r,(C)`). Every other instruction goes to the
/// opcode engine, and `finish_step` ends the step. An instruction that the
/// machine does not carry out in full is noted in `unimpl`, once for each
/// address.
#[verifier::rlimit(60)]
pub fn step(
    cpu: &mut CPU,
    zx_bus: &mut ZxBus,
    run_state: &mut CpuRunState,
    interrupt_pending: bool,
    executed: &mut HashMap<u16, (u8, String)>,
    unimpl: &mut UnimplTracker,
    stack_tracker: &mut StackTracker,
    from_step: bool,
) -> (snap: CpuSnapshot)
    requires
        engine_wf(*old(cpu)),
        old(run_state).t_states <= T_STATES_LIMIT,
        can_step(*old(cpu), *old(run_state), interrupt_pending),
    ensures
        engine_wf(*final(cpu)),
        engine_rom(*final(cpu)) == engine_rom(*old(cpu)),
        rom_kept(engine_memory(*old(cpu)), engine_memory(*final(cpu)), engine_rom(*old(cpu))),
        final(zx_bus).keyboard.rows@ == old(zx_bus).keyboard.rows@,
        final(zx_bus).border == old(zx_bus).border,
        final(stack_tracker).limit() == old(stack_tracker).limit(),
        final(run_state).t_states == old(run_state).t_states + snap.instr_cycles,
        1 <= snap.instr_cycles <= 268,
        step_done(
            *old(cpu),
            *final(cpu),
            old(zx_bus).keyboard.rows@,
            *old(run_state),
            *final(run_state),
            interrupt_pending,
            old(executed)@,
            final(executed)@,
            old(unimpl)@,
            final(unimpl)@,
            old(stack_tracker)@,
            final(stack_tracker)@,
            old(stack_tracker).limit(),
            from_step,
            snap,
        ),
{
    let mut r = registers(cpu);
    let pc_before = r.pc;
    let sp_before = r.sp;
    let f_before = (r.af % 256) as u8;

    if run_state.halted {
        if interrupt_pending && run_state.iff1 {
            run_state.halted = false;
        } else {
            run_state.t_states = run_state.t_states + 4;
            return snapshot(cpu, pc_before, false, f_before, 0, 4);
        }
    }
    let window = fetch(cpu, pc_before);
    let (mnemonic, instr_len) = disassemble(window.as_slice(), pc_before, pc_before);
    if starts_with(mnemonic.as_str(), "UNIMPL") || (window[0] == 0xED && window[1] == 0x5E) {
        let _ = unimpl.report(pc_before);
    }
    if window[0] == 0xDB && window[1] % 2 == 0 {
        let port = (r.af / 256) * 256 + window[1] as u16;
        let value = zx_bus.in_port(port);
        r.af = set_hi(r.af, value);
        r.pc = pc_before.wrapping_add(2);
        set_registers(cpu, &r);
        run_state.t_states = run_state.t_states + 11;
        enter(executed, pc_before, 2, mnemonic);
        return snapshot(cpu, pc_before, false, f_before, 2, 11);
    }
    if window[0] == 0xED && 0x40 <= window[1] && window[1] < 0x80 && window[1] % 8 == 0 && r.bc
        % 2 == 0 {
        let value = zx_bus.in_port(r.bc);
        let sel = (window[1] / 8) % 8;
        if sel == 0 {
            r.bc = set_hi(r.bc, value);
        } else if sel == 1 {
            r.bc = set_lo(r.bc, value);
        } else if sel == 2 {
            r.de = set_hi(r.de, value);
        } else if sel == 3 {
            r.de = set_lo(r.de, value);
        } else if sel == 4 {
            r.hl = set_hi(r.hl, value);
        } else if sel == 5 {
            r.hl = set_lo(r.hl, value);
        } else if sel == 7 {
            r.af = set_hi(r.af, value);
        }
        let sign: u8 = if value >= 0x80 {
            0x80
        } else {
            0
        };
        let zero: u8 = if value == 0 {
            0x40
        } else {
            0
        };
        let parity: u8 = if parity_even(value) {
            0x04
        } else {
            0
        };
        r.af = set_lo(r.af, sign + zero + parity + f_before % 2);
        r.pc = pc_before.wrapping_add(2);
        set_registers(cpu, &r);
        run_state.t_states = run_state.t_states + 12;
        enter(executed, pc_before, 2, mnemonic);
        return snapshot(cpu, pc_before, false, f_before, 2, 12);
    }
    let cycles = execute(cpu);
    finish_step(
        cpu,
        run_state,
        interrupt_pending,
        executed,
        stack_tracker,
        pc_before,
        sp_before,
        f_before,
        window[0],
        mnemonic,
        instr_len,
        cycles,
        from_step,
    )
}

/// Runs one instruction if the machine can take the step, as `step` does.
/// Where the engine cannot run the instruction at the program counter,
/// nothing changes and the result is `None`.
pub fn try_step(
    cpu: &mut CPU,
    zx_bus: &mut ZxBus,
    run_state: &mut CpuRunState,
    interrupt_pending: bool,
    executed: &mut HashMap<u16, (u8, String)>,
    unimpl: &mut UnimplTracker,
    stack_tracker: &mut StackTracker,
    from_step: bool,
) -> (taken: Option<CpuSnapshot>)
    requires
        engine_wf(*old(cpu)),
        old(run_state).t_states <= T_STATES_LIMIT,
    ensures
        engine_wf(*final(cpu)),
        engine_rom(*final(cpu)) == engine_rom(*old(cpu)),
        rom_kept(engine_memory(*old(cpu)), engine_memory(*final(cpu)), engine_rom(*old(cpu))),
        final(zx_bus).keyboard.rows@ == old(zx_bus).keyboard.rows@,
        final(zx_bus).border == old(zx_bus).border,
        final(stack_tracker).limit() == old(stack_tracker).limit(),
        taken is Some <==> can_step(*old(cpu), *old(run_state), interrupt_pending),
        match taken {
            Some(snap) => {
                &&& final(run_state).t_states == old(run_state).t_states + snap.instr_cycles
                &&& 1 <= snap.instr_cycles <= 268
                &&& step_done(
                    *old(cpu),
                    *final(cpu),
                    old(zx_bus).keyboard.rows@,
                    *old(run_state),
                    *final(run_state),
                    interrupt_pending,
                    old(executed)@,
                    final(executed)@,
                    old(unimpl)@,
                    final(unimpl)@,
                    old(stack_tracker)@,
                    final(stack_tracker)@,
                    old(stack_tracker).limit(),
                    from_step,
                    snap,
                )
            },
            None => {
                &&& *final(cpu) == *old(cpu)
                &&& *final(run_state) == *old(run_state)
                &&& final(executed)@ == old(executed)@
                &&& final(unimpl)@ == old(unimpl)@
                &&& final(stack_tracker)@ == old(stack_tracker)@
            },
        },
{
    let r = registers(cpu);
    let window = fetch(cpu, r.pc);
    let idle = run_state.halted && !(interrupt_pending && run_state.iff1);
    let port_a = window[0] == 0xDB && window[1] % 2 == 0;
    let port_c = window[0] == 0xED && 0x40 <= window[1] && window[1] < 0x80 && window[1] % 8 == 0
        && r.bc % 2 == 0;
    if idle || port_a || port_c || can_execute(&r, &window) {
        Some(
            step(
                cpu,
                zx_bus,
                run_state,
                interrupt_pending,
                executed,
                unimpl,
                stack_tracker,
                from_step,
            ),
        )
    } else {
        None
    }
}

/// The memory of a machine that was started with the given ROM image: the
/// image from address zero on, and the system variables FLAGS and CURCHL
/// set for the first output.
pub open spec fn booted_memory(rom: Seq<u8>) -> Seq<u8> {
    overlaid(Seq::new(MEMORY_SIZE as nat, |a: int| 0u8), 0, rom).update(0x5C08, 0u8).update(
        0x5C5C,
        0u8,
    ).update(0x5C5D, 0x40u8)
}

/// The registers of a machine that starts at `pc`: the stack pointer at
/// the top of memory, everything else at zero.
pub open spec fn booted_registers(pc: u16) -> Registers {
    Registers {
        pc,
        sp: 0xFFFF,
        af: 0,
        bc: 0,
        de: 0,
        hl: 0,
        ix: 0,
        iy: 0,
        af_: 0,
        bc_: 0,
        de_: 0,
        hl_: 0,
        i: 0,
        r: 0,
    }
}

/// Makes an engine with the given ROM image at address zero, ready to
/// start there. Nothing is protected.
pub fn init_cpu(rom: &[u8]) -> (cpu: CPU)
    requires
        rom@.len() <= MEMORY_SIZE,
    ensures
        engine_wf(cpu),
        engine_memory(cpu) == booted_memory(rom@),
        engine_rom(cpu) == None::<(u16, u16)>,
        engine_registers(cpu) == booted_registers(0),
{
    let mut cpu = new_engine();
    assert(engine_memory(cpu) =~= Seq::new(MEMORY_SIZE as nat, |a: int| 0u8));
    proof {
        lemma_written_range_overlays(engine_memory(cpu), None, 0, rom@);
    }
    write_range(&mut cpu, 0, rom);
    crate::engine::write(&mut cpu, 0x5C08, 0x00);
    crate::engine::write(&mut cpu, 0x5C5C, 0x00);
    crate::engine::write(&mut cpu, 0x5C5D, 0x40);
    let mut r = registers(&cpu);
    r.sp = 0xFFFF;
    set_registers(&mut cpu, &r);
    cpu
}

/// Makes an engine with the given ROM image at address zero and a test
/// program at 0x8000, ready to start the program.
pub fn init_cpu_with_test(rom: &[u8], test: &[u8]) -> (cpu: CPU)
    requires
        rom@.len() <= MEMORY_SIZE,
        test@.len() <= 0x8000,
    ensures
        engine_wf(cpu),
        engine_memory(cpu) == overlaid(booted_memory(rom@), 0x8000, test@),
        engine_rom(cpu) == None::<(u16, u16)>,
        engine_registers(cpu) == booted_registers(0x8000),
{
    let mut cpu = init_cpu(rom);
    proof {
        lemma_written_range_overlays(engine_memory(cpu), None, 0x8000, test@);
    }
    write_range(&mut cpu, 0x8000, test);
    let mut r = registers(&cpu);
    r.pc = 0x8000;
    set_registers(&mut cpu, &r);
    cpu
}

/// Halt resume: a halted machine that stands on its HALT instruction, with
/// interrupts enabled and allowed, takes a pending interrupt at its next
/// step. Whatever the engine does with the instruction, the machine is then
/// awake at 0x0038 and the step has charged exactly 13 T-states.
pub proof fn lemma_halt_resume(
    cpu0: CPU,
    cpu1: CPU,
    rows: Seq<u8>,
    run0: CpuRunState,
    run1: CpuRunState,
    executed0: Map<u16, (u8, String)>,
    executed1: Map<u16, (u8, String)>,
    unimpl0: Set<u16>,
    unimpl1: Set<u16>,
    log0: Seq<StackWrite>,
    log1: Seq<StackWrite>,
    limit: int,
    from_step: bool,
    snap: CpuSnapshot,
)
    requires
        run0.halted,
        run0.iff1,
        run0.allow_interrupts,
        run0.t_states <= T_STATES_LIMIT,
        byte_at(engine_memory(cpu0), engine_registers(cpu0).pc) == 0x76,
        step_done(
            cpu0,
            cpu1,
            rows,
            run0,
            run1,
            true,
            executed0,
            executed1,
            unimpl0,
            unimpl1,
            log0,
            log1,
            limit,
            from_step,
            snap,
        ),
    ensures
        !run1.halted,
        !run1.iff1,
        engine_registers(cpu1).pc == INTERRUPT_VECTOR,
        engine_registers(cpu1).sp == addr_add(engine_outcome(cpu0).registers.sp, -2),
        run1.t_states == run0.t_states + 13,
        snap.instr_cycles == 13,
{
}

/// The mnemonic of `CALL nn` is logged as a call.
pub proof fn lemma_call_provenance(b1: u8, b2: u8, pc: u16)
    ensures
        provenance(base_text(0xCD, b1, b2, pc)) == StackWriteKind::Call,
{
    reveal_strlit("CALL 0x");
    reveal_strlit("CALL");
    let text = base_text(0xCD, b1, b2, pc);
    assert(text.take(4) =~= "CALL"@);
}

/// The mnemonic of `PUSH rr` is logged as a push.
pub proof fn lemma_push_provenance(b0: u8, b1: u8, b2: u8, pc: u16)
    requires
        b0 == 0xC5 || b0 == 0xD5 || b0 == 0xE5 || b0 == 0xF5,
    ensures
        provenance(base_text(b0, b1, b2, pc)) == StackWriteKind::Push,
{
    reveal_strlit("PUSH ");
    reveal_strlit("PUSH");
    reveal_strlit("CALL");
    reveal_strlit("RST");
    let text = base_text(b0, b1, b2, pc);
    assert(text == "PUSH "@ + stack_pair_name((b0 as int / 16) % 4));
    assert(text.take(4) =~= "PUSH"@);
    assert(text[0] == 'P');
    assert(text.take(4)[0] == 'P');
    assert(text.take(3)[0] == 'P');
}

/// The last `count` entries of a log that has recorded a span of `count`
/// bytes are the entries of that span, lowest address first, provided the
/// log has room for them.
pub proof fn lemma_span_is_kept(
    log: Seq<StackWrite>,
    limit: int,
    start: u16,
    count: int,
    kind: StackWriteKind,
    pc: u16,
)
    requires
        0 <= count <= limit,
    ensures
        ({
            let after = recorded_span(log, limit, start, count, kind, pc);
            &&& after.len() >= count
            &&& forall|i: int|
                0 <= i < count ==> #[trigger] after[after.len() - count + i] == (StackWrite {
                    addr: addr_add(start, i),
                    kind,
                    pc,
                })
        }),
    decreases count,
{
    if count > 0 {
        lemma_span_is_kept(log, limit, start, count - 1, kind, pc);
        let before = recorded_span(log, limit, start, count - 1, kind, pc);
        let entry = StackWrite { addr: addr_add(start, count - 1), kind, pc };
        let after = recorded_span(log, limit, start, count, kind, pc);
        assert(after == recorded(before, limit, entry));
        assert forall|i: int| 0 <= i < count implies #[trigger] after[after.len() - count + i] == (
        StackWrite { addr: addr_add(start, i), kind, pc }) by {
            if i < count - 1 {
                assert(before[before.len() - (count - 1) + i] == (StackWrite {
                    addr: addr_add(start, i),
                    kind,
                    pc,
                }));
            }
        }
    }
}

/// The newest entry for an address is found behind any number of newer
/// entries for other addresses.
pub proof fn lemma_newest_behind(log: Seq<StackWrite>, addr: u16, at: int)
    requires
        0 <= at < log.len(),
        log[at].addr == addr,
        forall|j: int| at < j < log.len() ==> log[j].addr != addr,
    ensures
        newest_for(log, addr) == Some(log[at].kind),
    decreases log.len(),
{
    if at < log.len() - 1 {
        lemma_newest_behind(log.drop_last(), addr, at);
    }
}

/// Stack provenance: where an instruction has brought the stack pointer
/// down by no more bytes than the log holds, the log answers for the new
/// top of the stack with the instruction's kind.
pub proof fn lemma_span_newest(
    log: Seq<StackWrite>,
    limit: int,
    start: u16,
    count: int,
    kind: StackWriteKind,
    pc: u16,
)
    requires
        1 <= count <= limit,
        count <= 0x10000,
    ensures
        newest_for(recorded_span(log, limit, start, count, kind, pc), start) == Some(kind),
{
    lemma_span_is_kept(log, limit, start, count, kind, pc);
    let after = recorded_span(log, limit, start, count, kind, pc);
    let at = after.len() - count;
    assert(after[at + 0] == (StackWrite { addr: addr_add(start, 0), kind, pc }));
    assert forall|j: int| at < j < after.len() implies after[j].addr != start by {
        let i = j - at;
        assert(after[after.len() - count + i] == (StackWrite {
            addr: addr_add(start, i),
            kind,
            pc,
        }));
    }
    lemma_newest_behind(after, start, at);
}

/// Stack provenance: after a step that ran `CALL nn` or `PUSH rr` without
/// taking an interrupt, and that brought the stack pointer down by no more
/// bytes than the log holds, the log answers for the new top of the stack
/// with `Call` or `Push`.
pub proof fn lemma_stack_provenance(
    cpu0: CPU,
    cpu1: CPU,
    rows: Seq<u8>,
    run0: CpuRunState,
    run1: CpuRunState,
    executed0: Map<u16, (u8, String)>,
    executed1: Map<u16, (u8, String)>,
    unimpl0: Set<u16>,
    unimpl1: Set<u16>,
    log0: Seq<StackWrite>,
    log1: Seq<StackWrite>,
    limit: int,
    from_step: bool,
    snap: CpuSnapshot,
)
    requires
        !run0.halted,
        byte_at(engine_memory(cpu0), engine_registers(cpu0).pc) == 0xCD || byte_at(
            engine_memory(cpu0),
            engine_registers(cpu0).pc,
        ) == 0xC5 || byte_at(engine_memory(cpu0), engine_registers(cpu0).pc) == 0xD5 || byte_at(
            engine_memory(cpu0),
            engine_registers(cpu0).pc,
        ) == 0xE5 || byte_at(engine_memory(cpu0), engine_registers(cpu0).pc) == 0xF5,
        engine_registers(cpu1).sp < engine_registers(cpu0).sp,
        engine_registers(cpu0).sp - engine_registers(cpu1).sp <= limit,
        step_done(
            cpu0,
            cpu1,
            rows,
            run0,
            run1,
            false,
            executed0,
            executed1,
            unimpl0,
            unimpl1,
            log0,
            log1,
            limit,
            from_step,
            snap,
        ),
    ensures
        newest_for(log1, engine_registers(cpu1).sp) == Some(
            if byte_at(engine_memory(cpu0), engine_registers(cpu0).pc) == 0xCD {
                StackWriteKind::Call
            } else {
                StackWriteKind::Push
            },
        ),
{
    let r0 = engine_registers(cpu0);
    let window = fetch_window(engine_memory(cpu0), r0.pc);
    let b0 = window[0];
    let text = disassembled(window, r0.pc, r0.pc).0;
    assert(crate::disasm::window_index(r0.pc, r0.pc) == 0);
    assert(text == base_text(b0, window[1], window[2], r0.pc));
    if b0 == 0xCD {
        lemma_call_provenance(window[1], window[2], r0.pc);
    } else {
        lemma_push_provenance(b0, window[1], window[2], r0.pc);
    }
    let sp1 = engine_registers(cpu1).sp;
    lemma_span_newest(log0, limit, sp1, r0.sp - sp1, provenance(text), r0.pc);
}

} // verus!
