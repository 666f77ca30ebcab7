//! The machine: the opcode engine, the bus, the video composer and the
//! debugger under one roof, run frame by frame.

use crate::bus::ZxBus;
use crate::cpu_exec::{
    can_step, step_done, try_step, CpuRunState, CpuSnapshot, UnimplTracker, T_STATES_LIMIT,
};
use crate::debugger::{breaks_at, Debugger, RunMode};
use crate::engine::{
    clear_range, cleared, engine_memory, engine_registers, engine_rom, engine_wf, new_engine,
    overlaid, registers, rom_kept, set_registers, Registers, MEMORY_SIZE,
};
use crate::error::LoadError;
use crate::interrupt::{advance, InterruptController, TSTATES_PER_FRAME};
use crate::load::{load_file, load_outcome, loaded, store_rom, LoadResult, ROM_SIZE};
use crate::sna::ROM_END;
use crate::stack_tracker::{StackTracker, StackWrite};
use crate::video::{after_vsync, composed_frame, Video};
use std::collections::HashMap;
use vstd::prelude::*;
use zilog_z80::cpu::CPU;

verus! {

broadcast use vstd::std_specs::hash::group_hash_axioms;

/// The most that the cycle counter may hold before a frame is run: ten
/// frames add fewer than a million T-states.
pub const T_STATES_RUN_LIMIT: u64 = 0xFFFF_FFFE_0000_0000;

/// The frames that the fast mode runs between two pictures.
pub const FAST_FRAMES: u32 = 10;

/// The entries that the stack log holds.
pub const STACK_EVENTS: usize = 512;

/// What the machine was last loaded with.
#[derive(Copy, Clone, Debug, PartialEq, Eq, Structural)]
pub enum LoadState {
    Empty,
    Rom,
    Sna,
    Z80,
    Bin,
}

/// The whole machine.
pub struct ZxMachine {
    pub cpu: CPU,
    pub bus: ZxBus,
    pub run_state: CpuRunState,
    pub interrupt_ctrl: InterruptController,
    /// Whether the frame interrupt was raised and not yet taken.
    pub interrupt_pending: bool,
    pub debugger: Debugger,
    /// The instructions that ran, by address: length and mnemonic.
    pub executed_instrs: HashMap<u16, (u8, String)>,
    pub unimpl_tracker: UnimplTracker,
    pub last_snapshot: Option<CpuSnapshot>,
    pub stack_tracker: StackTracker,
    pub video: Video,
    /// Whether snapshots are kept for the debugger.
    pub debug_enabled: bool,
    pub load_state: LoadState,
}

/// The load state that a loaded file leaves.
pub open spec fn state_of(kind: LoadResult) -> LoadState {
    match kind {
        LoadResult::Rom => LoadState::Rom,
        LoadResult::Sna => LoadState::Sna,
        LoadResult::Z80 => LoadState::Z80,
        LoadResult::Bin => LoadState::Bin,
    }
}

impl ZxMachine {
    /// Whether the parts of the machine fit together: the engine has its
    /// whole memory and no interrupt request of its own, the frame has its
    /// size, and the scheduler counts within one frame of 69888 T-states.
    pub open spec fn wf(&self) -> bool {
        &&& engine_wf(self.cpu)
        &&& self.video.wf()
        &&& self.interrupt_ctrl.next_int == TSTATES_PER_FRAME
        &&& self.interrupt_ctrl.tstates_accum < TSTATES_PER_FRAME
    }

    /// Whether the machine stops before its next instruction: at the
    /// breakpoint, or where the engine cannot run the instruction.
    pub open spec fn stops(&self) -> bool {
        breaks_at(self.debugger.mode, engine_registers(self.cpu).pc) || !can_step(
            self.cpu,
            self.run_state,
            self.interrupt_pending,
        )
    }

    /// Whether `next` differs from `self` in nothing but the debugger's
    /// mode.
    pub open spec fn same_but_mode(&self, next: &ZxMachine) -> bool {
        self.same_core(next) && next.video == self.video
    }

    /// Whether `next` differs from `self` in nothing but the engine.
    pub open spec fn same_but_engine(&self, next: &ZxMachine) -> bool {
        &&& next.bus.keyboard.rows@ == self.bus.keyboard.rows@
        &&& next.bus.border == self.bus.border
        &&& next.run_state == self.run_state
        &&& next.interrupt_ctrl.tstates_accum == self.interrupt_ctrl.tstates_accum
        &&& next.interrupt_ctrl.next_int == self.interrupt_ctrl.next_int
        &&& next.interrupt_pending == self.interrupt_pending
        &&& next.debugger.mode == self.debugger.mode
        &&& next.executed_instrs@ == self.executed_instrs@
        &&& next.unimpl_tracker@ == self.unimpl_tracker@
        &&& next.last_snapshot == self.last_snapshot
        &&& next.stack_tracker@ == self.stack_tracker@
        &&& next.stack_tracker.limit() == self.stack_tracker.limit()
        &&& next.video == self.video
        &&& next.debug_enabled == self.debug_enabled
        &&& next.load_state == self.load_state
    }

    /// Whether `next` differs from `self` in nothing but the debugger's
    /// mode and the video.
    pub open spec fn same_core(&self, next: &ZxMachine) -> bool {
        &&& next.cpu == self.cpu
        &&& next.bus.keyboard.rows@ == self.bus.keyboard.rows@
        &&& next.bus.border == self.bus.border
        &&& next.run_state == self.run_state
        &&& next.interrupt_ctrl.tstates_accum == self.interrupt_ctrl.tstates_accum
        &&& next.interrupt_ctrl.next_int == self.interrupt_ctrl.next_int
        &&& next.interrupt_pending == self.interrupt_pending
        &&& next.executed_instrs@ == self.executed_instrs@
        &&& next.unimpl_tracker@ == self.unimpl_tracker@
        &&& next.last_snapshot == self.last_snapshot
        &&& next.stack_tracker@ == self.stack_tracker@
        &&& next.stack_tracker.limit() == self.stack_tracker.limit()
        &&& next.debug_enabled == self.debug_enabled
        &&& next.load_state == self.load_state
    }

    /// Whether `next` is `self` at the end of a frame: one vertical blank
    /// was counted, and the picture was composed first if `drawn`.
    pub open spec fn framed(&self, next: &ZxMachine, drawn: bool) -> bool {
        &&& self.same_core(next)
        &&& next.debugger.mode == self.debugger.mode
        &&& next.video.scale == self.video.scale
        &&& (next.video.flash_counter, next.video.flash_phase) == after_vsync(
            self.video.flash_counter,
            self.video.flash_phase,
        )
        &&& next.video.framebuffer@ == if drawn {
            composed_frame(engine_memory(self.cpu), self.video.flash_phase)
        } else {
            self.video.framebuffer@
        }
    }

    /// Whether `next` is `self` one instruction later, with `snap` the
    /// snapshot of that instruction: the step driver has run, the
    /// scheduler has counted the instruction's T-states, a raised
    /// interrupt is pending until the program counter stands at 0x0038,
    /// and the snapshot is kept where the debugger is on.
    pub open spec fn stepped(&self, next: &ZxMachine, snap: CpuSnapshot, from_step: bool) -> bool {
        let (accum, raised) = advance(
            self.interrupt_ctrl.tstates_accum as int,
            self.interrupt_ctrl.next_int as int,
            snap.instr_cycles as int,
        );
        &&& step_done(
            self.cpu,
            next.cpu,
            self.bus.keyboard.rows@,
            self.run_state,
            next.run_state,
            self.interrupt_pending,
            self.executed_instrs@,
            next.executed_instrs@,
            self.unimpl_tracker@,
            next.unimpl_tracker@,
            self.stack_tracker@,
            next.stack_tracker@,
            self.stack_tracker.limit(),
            from_step,
            snap,
        )
        &&& next.run_state.t_states == self.run_state.t_states + snap.instr_cycles
        &&& next.bus.keyboard.rows@ == self.bus.keyboard.rows@
        &&& next.bus.border == self.bus.border
        &&& next.stack_tracker.limit() == self.stack_tracker.limit()
        &&& next.video == self.video
        &&& next.debug_enabled == self.debug_enabled
        &&& next.load_state == self.load_state
        &&& next.debugger.mode == self.debugger.mode
        &&& next.last_snapshot == if self.debug_enabled {
            Some(snap)
        } else {
            self.last_snapshot
        }
        &&& if from_step {
            &&& next.interrupt_ctrl.tstates_accum == self.interrupt_ctrl.tstates_accum
            &&& next.interrupt_ctrl.next_int == self.interrupt_ctrl.next_int
            &&& next.interrupt_pending == self.interrupt_pending
        } else {
            &&& next.interrupt_ctrl.tstates_accum == accum
            &&& next.interrupt_ctrl.next_int == self.interrupt_ctrl.next_int
            &&& next.interrupt_pending == ((self.interrupt_pending || raised) && engine_registers(
                next.cpu,
            ).pc != 0x0038)
        }
    }

    /// Whether `end` is what `self` becomes by running instructions until
    /// the frame has its 69888 T-states, of which `states` have gone by.
    /// The run ends early where the machine stops, and the debugger is
    /// then paused.
    pub open spec fn ran(self, end: ZxMachine, states: int) -> bool
        decreases TSTATES_PER_FRAME + 268 - states,
    {
        if states >= TSTATES_PER_FRAME {
            self.same_but_mode(&end) && end.debugger.mode == self.debugger.mode
        } else if self.stops() {
            self.same_but_mode(&end) && end.debugger.mode == RunMode::Paused
        } else {
            exists|mid: ZxMachine, snap: CpuSnapshot|
                1 <= snap.instr_cycles <= 268 && #[trigger] self.stepped(&mid, snap, false)
                    && mid.ran(end, states + snap.instr_cycles)
        }
    }

    /// Whether `end` is what `self` becomes by running up to `frames`
    /// frames in a row. Each frame ends with a vertical blank. The row ends
    /// with the frame in which the machine stops, and the picture is
    /// composed at the end of the last frame only.
    pub open spec fn ran_fast(self, end: ZxMachine, frames: nat) -> bool
        decreases frames,
    {
        exists|mid: ZxMachine| #[trigger]
            self.ran(mid, 0) && if frames <= 1 || mid.debugger.mode == RunMode::Paused {
                mid.framed(&end, true)
            } else {
                exists|next: ZxMachine| #[trigger]
                    mid.framed(&next, false) && next.ran_fast(end, (frames - 1) as nat)
            }
    }

    /// Builds the machine around the given 48K ROM image, which must be
    /// exactly 16 KiB. The machine starts paused at address zero.
    pub fn new(video_scale: u32, rom: &[u8]) -> (r: Result<ZxMachine, LoadError>)
        ensures
            r is Ok <==> rom@.len() == ROM_SIZE,
            r matches Err(e) ==> e == LoadError::SizeMismatch,
            r matches Ok(m) ==> {
                &&& m.wf()
                &&& engine_memory(m.cpu) == overlaid(
                    Seq::new(MEMORY_SIZE as nat, |a: int| 0u8),
                    0,
                    rom@,
                )
                &&& engine_rom(m.cpu) == Some((0u16, ROM_END))
                &&& engine_registers(m.cpu).pc == 0
                &&& engine_registers(m.cpu).sp == 0xFFFF
                &&& m.run_state == CpuRunState {
                    halted: false,
                    iff1: true,
                    iff1_pending: false,
                    iff1_delay: 0,
                    im: 1,
                    t_states: 0,
                    allow_interrupts: true,
                }
                &&& m.interrupt_pending == false
                &&& m.debugger.mode == RunMode::Paused
                &&& m.executed_instrs@ == Map::<u16, (u8, String)>::empty()
                &&& m.unimpl_tracker@ == Set::<u16>::empty()
                &&& m.last_snapshot is None
                &&& m.stack_tracker@ == Seq::<StackWrite>::empty()
                &&& m.stack_tracker.limit() == STACK_EVENTS
                &&& m.video.scale == video_scale
                &&& m.debug_enabled == false
                &&& m.load_state == LoadState::Empty
            },
    {
        if rom.len() != ROM_SIZE {
            return Err(LoadError::SizeMismatch);
        }
        let cpu = new_engine();
        assert(engine_memory(cpu) =~= Seq::new(MEMORY_SIZE as nat, |a: int| 0u8));
        let mut m = ZxMachine {
            cpu,
            bus: ZxBus::new(),
            run_state: CpuRunState::new(),
            interrupt_ctrl: InterruptController::new(),
            interrupt_pending: false,
            debugger: Debugger::new(),
            executed_instrs: HashMap::new(),
            unimpl_tracker: UnimplTracker::new(),
            last_snapshot: None,
            stack_tracker: StackTracker::new(STACK_EVENTS),
            video: Video::new(video_scale),
            debug_enabled: false,
            load_state: LoadState::Empty,
        };
        store_rom(&mut m.cpu, rom);
        let mut r = registers(&m.cpu);
        r.pc = 0;
        r.sp = 0xFFFF;
        set_registers(&mut m.cpu, &r);
        Ok(m)
    }

    /// Replaces the ROM by the given image of exactly 16 KiB, protects it,
    /// and points the machine at its start.
    pub fn load_rom(&mut self, data: &[u8]) -> (r: Result<(), LoadError>)
        requires
            old(self).wf(),
        ensures
            final(self).wf(),
            r is Ok <==> data@.len() == ROM_SIZE,
            r matches Err(e) ==> e == LoadError::SizeMismatch && old(self).same_but_mode(
                final(self),
            ) && final(self).debugger.mode == old(self).debugger.mode,
            r is Ok ==> {
                &&& engine_memory(final(self).cpu) == overlaid(
                    engine_memory(old(self).cpu),
                    0,
                    data@,
                )
                &&& engine_rom(final(self).cpu) == Some((0u16, ROM_END))
                &&& engine_registers(final(self).cpu) == Registers {
                    pc: 0,
                    sp: 0xFFFF,
                    ..engine_registers(old(self).cpu)
                }
                &&& old(self).same_but_engine(final(self))
            },
    {
        if data.len() != ROM_SIZE {
            return Err(LoadError::SizeMismatch);
        }
        store_rom(&mut self.cpu, data);
        let mut r = registers(&self.cpu);
        r.pc = 0;
        r.sp = 0xFFFF;
        set_registers(&mut self.cpu, &r);
        Ok(())
    }

    /// Runs one instruction, or stops: at the breakpoint and where the
    /// engine cannot run the instruction, the debugger is paused and
    /// nothing else changes. The result is the number of T-states that the
    /// instruction took.
    #[verifier::rlimit(40)]
    pub fn run_step(&mut self, from_step: bool) -> (cycles: Option<u32>)
        requires
            old(self).wf(),
            old(self).run_state.t_states <= T_STATES_LIMIT,
        ensures
            final(self).wf(),
            engine_rom(final(self).cpu) == engine_rom(old(self).cpu),
            rom_kept(
                engine_memory(old(self).cpu),
                engine_memory(final(self).cpu),
                engine_rom(old(self).cpu),
            ),
            cycles is None <==> old(self).stops(),
            match cycles {
                None => old(self).same_but_mode(final(self)) && final(self).debugger.mode
                    == RunMode::Paused,
                Some(n) => 1 <= n <= 268 && exists|snap: CpuSnapshot|
                    snap.instr_cycles == n && #[trigger] old(self).stepped(
                        final(self),
                        snap,
                        from_step,
                    ),
            },
    {
        let pc = registers(&self.cpu).pc;
        if self.debugger.check_breakpoint(pc) {
            return None;
        }
        let taken = try_step(
            &mut self.cpu,
            &mut self.bus,
            &mut self.run_state,
            self.interrupt_pending,
            &mut self.executed_instrs,
            &mut self.unimpl_tracker,
            &mut self.stack_tracker,
            from_step,
        );
        match taken {
            None => {
                self.debugger.pause();
                None
            },
            Some(snap) => {
                let n = snap.instr_cycles;
                if !from_step {
                    if self.interrupt_ctrl.add_cycles(n) {
                        self.interrupt_pending = true;
                    }
                    if self.interrupt_pending && registers(&self.cpu).pc == 0x0038 {
                        self.interrupt_pending = false;
                    }
                }
                let ghost shown = snap;
                if self.debug_enabled {
                    self.last_snapshot = Some(snap);
                }
                assert(old(self).stepped(final(self), shown, from_step));
                Some(n)
            },
        }
    }

    /// Runs instructions until one frame's worth of T-states has gone by
    /// or the machine stops. The result tells whether the frame was run
    /// to its end.
    #[verifier::rlimit(40)]
    pub fn run_budget(&mut self) -> (whole: bool)
        requires
            old(self).wf(),
            old(self).run_state.t_states <= T_STATES_LIMIT - 70200,
        ensures
            final(self).wf(),
            engine_rom(final(self).cpu) == engine_rom(old(self).cpu),
            rom_kept(
                engine_memory(old(self).cpu),
                engine_memory(final(self).cpu),
                engine_rom(old(self).cpu),
            ),
            final(self).video == old(self).video,
            final(self).debug_enabled == old(self).debug_enabled,
            final(self).load_state == old(self).load_state,
            final(self).bus.keyboard.rows@ == old(self).bus.keyboard.rows@,
            final(self).bus.border == old(self).bus.border,
            final(self).stack_tracker.limit() == old(self).stack_tracker.limit(),
            final(self).run_state.t_states >= old(self).run_state.t_states,
            final(self).run_state.t_states < old(self).run_state.t_states + TSTATES_PER_FRAME
                + 268,
            whole ==> final(self).run_state.t_states >= old(self).run_state.t_states
                + TSTATES_PER_FRAME && final(self).debugger.mode == old(self).debugger.mode,
            !whole ==> final(self).debugger.mode == RunMode::Paused,
            old(self).ran(*final(self), 0),
    {
        let mut states: u64 = 0;
        while states < TSTATES_PER_FRAME
            invariant
                self.wf(),
                forall|end: ZxMachine| #[trigger]
                    self.ran(end, states as int) ==> old(self).ran(end, 0),
                states < TSTATES_PER_FRAME + 268,
                self.run_state.t_states == old(self).run_state.t_states + states,
                old(self).run_state.t_states <= T_STATES_LIMIT - 70200,
                engine_rom(self.cpu) == engine_rom(old(self).cpu),
                rom_kept(
                    engine_memory(old(self).cpu),
                    engine_memory(self.cpu),
                    engine_rom(old(self).cpu),
                ),
                self.video == old(self).video,
                self.debug_enabled == old(self).debug_enabled,
                self.load_state == old(self).load_state,
                self.bus.keyboard.rows@ == old(self).bus.keyboard.rows@,
                self.bus.border == old(self).bus.border,
                self.stack_tracker.limit() == old(self).stack_tracker.limit(),
                self.debugger.mode == old(self).debugger.mode,
            decreases TSTATES_PER_FRAME + 268 - states,
        {
            let ghost before = *self;
            match self.run_step(false) {
                None => {
                    proof {
                        assert(before.ran(*self, states as int));
                    }
                    return false;
                },
                Some(n) => {
                    proof {
                        let snap = choose|snap: CpuSnapshot|
                            snap.instr_cycles == n && #[trigger] before.stepped(self, snap, false);
                        assert forall|end: ZxMachine| #[trigger]
                            self.ran(end, states + n) implies old(self).ran(end, 0) by {
                            assert(before.stepped(self, snap, false) && self.ran(
                                end,
                                states + snap.instr_cycles,
                            ));
                            assert(before.ran(end, states as int));
                        }
                    }
                    states = states + n as u64;
                },
            }
        }
        proof {
            assert(self.ran(*self, states as int));
        }
        true
    }

    /// Runs the machine for one tick of the display, as the debugger's
    /// mode says. Paused, nothing runs. In step mode one instruction
    /// runs. In run mode one frame runs, in fast mode ten; a frame ends
    /// early where the machine stops, which pauses the debugger. At the
    /// end of the last frame the picture is composed, and each frame
    /// counts one vertical blank.
    #[verifier::rlimit(60)]
    pub fn run_frame(&mut self)
        requires
            old(self).wf(),
            old(self).run_state.t_states <= T_STATES_RUN_LIMIT,
        ensures
            final(self).wf(),
            engine_rom(final(self).cpu) == engine_rom(old(self).cpu),
            rom_kept(
                engine_memory(old(self).cpu),
                engine_memory(final(self).cpu),
                engine_rom(old(self).cpu),
            ),
            final(self).run_state.t_states >= old(self).run_state.t_states,
            final(self).debug_enabled == old(self).debug_enabled,
            final(self).load_state == old(self).load_state,
            final(self).bus.keyboard.rows@ == old(self).bus.keyboard.rows@,
            final(self).bus.border == old(self).bus.border,
            final(self).video.scale == old(self).video.scale,
            match old(self).debugger.mode {
                RunMode::Paused => old(self).same_but_mode(final(self)) && final(self).debugger.mode
                    == RunMode::Paused,
                RunMode::Step => {
                    &&& final(self).video == old(self).video
                    &&& if old(self).stops() {
                        old(self).same_but_mode(final(self)) && final(self).debugger.mode
                            == RunMode::Paused
                    } else {
                        exists|snap: CpuSnapshot| #[trigger]
                            old(self).stepped(final(self), snap, false)
                    }
                },
                RunMode::Run => {
                    &&& exists|mid: ZxMachine| #[trigger]
                        old(self).ran(mid, 0) && mid.framed(final(self), true)
                    &&& final(self).debugger.mode == RunMode::Run ==> final(self).run_state.t_states
                        >= old(self).run_state.t_states + TSTATES_PER_FRAME
                    &&& final(self).run_state.t_states < old(self).run_state.t_states
                        + TSTATES_PER_FRAME + 268
                },
                RunMode::RunFast => {
                    &&& old(self).ran_fast(*final(self), FAST_FRAMES as nat)
                    &&& final(self).debugger.mode == RunMode::RunFast
                        ==> final(self).run_state.t_states >= old(self).run_state.t_states
                        + FAST_FRAMES
                        * TSTATES_PER_FRAME
                },
            },
    {
        match self.debugger.mode {
            RunMode::Paused => {},
            RunMode::Step => {
                let _ = self.run_step(false);
            },
            RunMode::Run => {
                let _ = self.run_budget();
                let ghost mid = *self;
                self.video.update_from_bus(&self.cpu);
                self.video.on_vsync();
                assert(old(self).ran(mid, 0) && mid.framed(self, true));
            },
            RunMode::RunFast => {
                let mut frames: u32 = 0;
                loop
                    invariant
                        self.wf(),
                        frames < FAST_FRAMES,
                        old(self).debugger.mode == RunMode::RunFast,
                        old(self).run_state.t_states <= T_STATES_RUN_LIMIT,
                        self.run_state.t_states >= old(self).run_state.t_states + frames
                            * TSTATES_PER_FRAME,
                        self.run_state.t_states <= old(self).run_state.t_states + frames * 70200,
                        self.debugger.mode == RunMode::RunFast,
                        engine_rom(self.cpu) == engine_rom(old(self).cpu),
                        rom_kept(
                            engine_memory(old(self).cpu),
                            engine_memory(self.cpu),
                            engine_rom(old(self).cpu),
                        ),
                        self.debug_enabled == old(self).debug_enabled,
                        self.load_state == old(self).load_state,
                        self.bus.keyboard.rows@ == old(self).bus.keyboard.rows@,
                        self.bus.border == old(self).bus.border,
                        self.video.scale == old(self).video.scale,
                        forall|end: ZxMachine| #[trigger]
                            self.ran_fast(end, (FAST_FRAMES - frames) as nat)
                                ==> old(self).ran_fast(end, FAST_FRAMES as nat),
                    decreases FAST_FRAMES - frames,
                {
                    let ghost first = *self;
                    let whole = self.run_budget();
                    let ghost mid = *self;
                    let last = !whole || frames + 1 == FAST_FRAMES;
                    if last {
                        self.video.update_from_bus(&self.cpu);
                    }
                    self.video.on_vsync();
                    proof {
                        let left = (FAST_FRAMES - frames) as nat;
                        assert(first.ran(mid, 0));
                        if last {
                            assert(mid.framed(self, true));
                            assert(first.ran_fast(*self, left));
                        } else {
                            assert(mid.framed(self, false));
                            assert forall|end: ZxMachine| #[trigger]
                                self.ran_fast(end, (left - 1) as nat) implies old(self).ran_fast(
                                end,
                                FAST_FRAMES as nat,
                            ) by {
                                assert(mid.framed(self, false) && self.ran_fast(
                                    end,
                                    (left - 1) as nat,
                                ));
                                assert(first.ran(mid, 0));
                                assert(first.ran_fast(end, left));
                            }
                        }
                    }
                    frames = frames + 1;
                    if last {
                        return ;
                    }
                }
            },
        }
    }

    /// Composes the picture from the memory as it is.
    pub fn update_video_from_bus(&mut self)
        requires
            old(self).wf(),
        ensures
            final(self).wf(),
            old(self).same_core(final(self)),
            final(self).debugger.mode == old(self).debugger.mode,
            final(self).video.framebuffer@ == composed_frame(
                engine_memory(old(self).cpu),
                old(self).video.flash_phase,
            ),
            final(self).video.scale == old(self).video.scale,
            final(self).video.flash_counter == old(self).video.flash_counter,
            final(self).video.flash_phase == old(self).video.flash_phase,
    {
        self.video.update_from_bus(&self.cpu);
    }

    /// Runs one instruction for the step button, whatever the mode, and
    /// tells whether it ran. The breakpoint does not hold it back; the
    /// scheduler does not count it.
    pub fn step_once(&mut self) -> (ran: bool)
        requires
            old(self).wf(),
            old(self).run_state.t_states <= T_STATES_LIMIT,
        ensures
            final(self).wf(),
            engine_rom(final(self).cpu) == engine_rom(old(self).cpu),
            rom_kept(
                engine_memory(old(self).cpu),
                engine_memory(final(self).cpu),
                engine_rom(old(self).cpu),
            ),
            ran == can_step(old(self).cpu, old(self).run_state, old(self).interrupt_pending),
            if ran {
                exists|snap: CpuSnapshot| #[trigger] old(self).stepped(final(self), snap, true)
            } else {
                old(self).same_but_mode(final(self))
                    && final(self).debugger.mode == old(self).debugger.mode
            },
    {
        let taken = try_step(
            &mut self.cpu,
            &mut self.bus,
            &mut self.run_state,
            self.interrupt_pending,
            &mut self.executed_instrs,
            &mut self.unimpl_tracker,
            &mut self.stack_tracker,
            true,
        );
        match taken {
            None => false,
            Some(snap) => {
                let ghost shown = snap;
                if self.debug_enabled {
                    self.last_snapshot = Some(snap);
                }
                assert(old(self).stepped(final(self), shown, true));
                true
            },
        }
    }

    /// Loads the file `data` by its extension `ext`. After a load the
    /// scheduler starts anew, no interrupt is pending, the last snapshot
    /// is gone and the machine is not halted. A file that is refused
    /// leaves the machine as it was.
    pub fn load(&mut self, ext: &str, data: &[u8]) -> (r: Result<LoadResult, LoadError>)
        requires
            old(self).wf(),
        ensures
            final(self).wf(),
            r == load_outcome(ext@, data@),
            loaded(
                old(self).cpu,
                old(self).run_state,
                final(self).cpu,
                final(self).run_state,
                ext@,
                data@,
            ),
            final(self).debugger.mode == old(self).debugger.mode,
            match r {
                Ok(kind) => {
                    &&& final(self).load_state == state_of(kind)
                    &&& final(self).interrupt_pending == false
                    &&& final(self).interrupt_ctrl.tstates_accum == 0
                    &&& final(self).last_snapshot is None
                    &&& final(self).video == old(self).video
                    &&& final(self).debug_enabled == old(self).debug_enabled
                    &&& final(self).bus.keyboard.rows@ == old(self).bus.keyboard.rows@
                    &&& final(self).bus.border == old(self).bus.border
                    &&& final(self).executed_instrs@ == old(self).executed_instrs@
                    &&& final(self).unimpl_tracker@ == old(self).unimpl_tracker@
                    &&& final(self).stack_tracker@ == old(self).stack_tracker@
                    &&& final(self).stack_tracker.limit() == old(self).stack_tracker.limit()
                },
                Err(_) => old(self).same_but_mode(final(self)),
            },
    {
        let r = load_file(&mut self.cpu, &mut self.run_state, ext, data);
        match r {
            Ok(kind) => {
                self.on_file_loaded(kind);
            },
            Err(_) => {},
        }
        r
    }

    /// Settles the machine after a file was loaded.
    pub fn on_file_loaded(&mut self, kind: LoadResult)
        ensures
            final(self).load_state == state_of(kind),
            final(self).interrupt_pending == false,
            final(self).interrupt_ctrl.tstates_accum == 0,
            final(self).interrupt_ctrl.next_int == TSTATES_PER_FRAME,
            (final(self).last_snapshot is None),
            final(self).run_state == (CpuRunState { halted: false, ..old(self).run_state }),
            final(self).cpu == old(self).cpu,
            final(self).video == old(self).video,
            final(self).debugger.mode == old(self).debugger.mode,
            final(self).debug_enabled == old(self).debug_enabled,
            final(self).bus.keyboard.rows@ == old(self).bus.keyboard.rows@,
            final(self).bus.border == old(self).bus.border,
            final(self).executed_instrs@ == old(self).executed_instrs@,
            final(self).unimpl_tracker@ == old(self).unimpl_tracker@,
            final(self).stack_tracker@ == old(self).stack_tracker@,
            final(self).stack_tracker.limit() == old(self).stack_tracker.limit(),
    {
        self.interrupt_pending = false;
        self.interrupt_ctrl = InterruptController::new();
        self.last_snapshot = None;
        self.run_state.halted = false;
        self.load_state = match kind {
            LoadResult::Rom => LoadState::Rom,
            LoadResult::Sna => LoadState::Sna,
            LoadResult::Z80 => LoadState::Z80,
            LoadResult::Bin => LoadState::Bin,
        };
    }

    /// Resets the machine as the reset button does: the program counter
    /// goes to zero and the stack pointer to 0xFFFF, the run state and the
    /// scheduler start anew, the map of executed instructions is emptied
    /// and the debugger is paused. The memory stays.
    pub fn reset_machine(&mut self)
        requires
            old(self).wf(),
        ensures
            final(self).wf(),
            engine_registers(final(self).cpu) == (Registers {
                pc: 0,
                sp: 0xFFFF,
                ..engine_registers(old(self).cpu)
            }),
            engine_memory(final(self).cpu) == engine_memory(old(self).cpu),
            engine_rom(final(self).cpu) == engine_rom(old(self).cpu),
            final(self).run_state == (CpuRunState {
                halted: false,
                iff1: true,
                iff1_pending: false,
                iff1_delay: 0,
                im: 1,
                t_states: 0,
                allow_interrupts: true,
            }),
            final(self).interrupt_pending == false,
            final(self).interrupt_ctrl.tstates_accum == 0,
            (final(self).last_snapshot is None),
            final(self).executed_instrs@ == Map::<u16, (u8, String)>::empty(),
            final(self).debugger.mode == RunMode::Paused,
            final(self).video == old(self).video,
            final(self).unimpl_tracker@ == old(self).unimpl_tracker@,
            final(self).stack_tracker@ == old(self).stack_tracker@,
            final(self).stack_tracker.limit() == old(self).stack_tracker.limit(),
            final(self).debug_enabled == old(self).debug_enabled,
            final(self).load_state == old(self).load_state,
            final(self).bus.keyboard.rows@ == old(self).bus.keyboard.rows@,
            final(self).bus.border == old(self).bus.border,
    {
        let mut r = registers(&self.cpu);
        r.pc = 0;
        r.sp = 0xFFFF;
        set_registers(&mut self.cpu, &r);
        self.run_state = CpuRunState::new();
        self.interrupt_pending = false;
        self.interrupt_ctrl = InterruptController::new();
        self.last_snapshot = None;
        self.executed_instrs.clear();
        self.debugger.pause();
    }

    /// Resets the machine as switching it off and on does: a reset, and
    /// besides the RAM from 0x4000 on is zeroed, the trackers are emptied
    /// and FLASH is put at rest.
    pub fn power_reset_machine(&mut self)
        requires
            old(self).wf(),
        ensures
            final(self).wf(),
            engine_registers(final(self).cpu) == (Registers {
                pc: 0,
                sp: 0xFFFF,
                ..engine_registers(old(self).cpu)
            }),
            engine_memory(final(self).cpu) == cleared(engine_memory(old(self).cpu), 0x4000, 0xFFFF),
            engine_rom(final(self).cpu) == engine_rom(old(self).cpu),
            final(self).run_state == (CpuRunState {
                halted: false,
                iff1: true,
                iff1_pending: false,
                iff1_delay: 0,
                im: 1,
                t_states: 0,
                allow_interrupts: true,
            }),
            final(self).interrupt_pending == false,
            final(self).interrupt_ctrl.tstates_accum == 0,
            (final(self).last_snapshot is None),
            final(self).executed_instrs@ == Map::<u16, (u8, String)>::empty(),
            final(self).debugger.mode == RunMode::Paused,
            final(self).unimpl_tracker@ == Set::<u16>::empty(),
            final(self).stack_tracker@ == Seq::<StackWrite>::empty(),
            final(self).stack_tracker.limit() == old(self).stack_tracker.limit(),
            final(self).video.flash_counter == 0,
            final(self).video.flash_phase == false,
            final(self).video.framebuffer == old(self).video.framebuffer,
            final(self).video.scale == old(self).video.scale,
            final(self).debug_enabled == old(self).debug_enabled,
            final(self).load_state == old(self).load_state,
            final(self).bus.keyboard.rows@ == old(self).bus.keyboard.rows@,
            final(self).bus.border == old(self).bus.border,
    {
        self.reset_machine();
        clear_range(&mut self.cpu, 0x4000, 0xFFFF);
        self.unimpl_tracker = UnimplTracker::new();
        self.stack_tracker = StackTracker::new(self.stack_tracker.max_events());
        self.video.reset_timing();
    }
}

} // verus!
