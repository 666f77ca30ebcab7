use zx_spectrum::debugger::RunMode;
use zx_spectrum::engine::{read, registers, set_registers, write_range};
use zx_spectrum::error::LoadError;
use zx_spectrum::keyboard::HostKey;
use zx_spectrum::load::LoadResult;
use zx_spectrum::machine::{LoadState, ZxMachine};
use zx_spectrum::stack_tracker::StackWriteKind;

fn rom_with(program: &[u8]) -> Vec<u8> {
    let mut rom = vec![0u8; 16384];
    rom[..program.len()].copy_from_slice(program);
    rom
}

fn machine(program: &[u8]) -> ZxMachine {
    ZxMachine::new(4, &rom_with(program)).unwrap()
}

#[test]
fn new_machine_is_paused_at_the_start_of_the_rom() {
    let m = machine(&[0xF3, 0xAF]);
    let r = registers(&m.cpu);
    assert_eq!(r.pc, 0x0000);
    assert_eq!(r.sp, 0xFFFF);
    assert_eq!(read(&m.cpu, 0), 0xF3);
    assert_eq!(read(&m.cpu, 1), 0xAF);
    assert_eq!(m.debugger.mode, RunMode::Paused);
    assert!(!m.interrupt_pending);
    assert!(!m.debug_enabled);
    assert!(m.last_snapshot.is_none());
    assert!(m.executed_instrs.is_empty());
    assert_eq!(m.load_state, LoadState::Empty);
    assert_eq!(m.video.scale, 4);
    assert_eq!(m.stack_tracker.max_events(), 512);
    assert_eq!(m.run_state.t_states, 0);
    assert!(m.run_state.iff1);
    assert_eq!(m.interrupt_ctrl.next_int, 69888);
}

#[test]
fn new_machine_wants_a_rom_of_16k() {
    assert_eq!(ZxMachine::new(1, &[]).err(), Some(LoadError::SizeMismatch));
    assert_eq!(ZxMachine::new(1, &vec![0; 16385]).err(), Some(LoadError::SizeMismatch));
}

#[test]
fn rom_is_protected_from_the_start() {
    let mut m = machine(&[0xF3]);
    zx_spectrum::engine::write(&mut m.cpu, 0x0000, 0x00);
    zx_spectrum::engine::write(&mut m.cpu, 0x3FFF, 0x11);
    zx_spectrum::engine::write(&mut m.cpu, 0x4000, 0x22);
    assert_eq!(read(&m.cpu, 0x0000), 0xF3);
    assert_eq!(read(&m.cpu, 0x3FFF), 0x00);
    assert_eq!(read(&m.cpu, 0x4000), 0x22);
}

#[test]
fn paused_machine_does_not_run() {
    let mut m = machine(&[0x3E, 0x42]);
    m.run_frame();
    assert_eq!(registers(&m.cpu).pc, 0);
    assert_eq!(m.run_state.t_states, 0);
    assert_eq!(m.video.flash_counter, 0);
    assert_eq!(m.debugger.mode, RunMode::Paused);
}

#[test]
fn step_mode_runs_one_instruction_a_frame() {
    let mut m = machine(&[0x3E, 0x42, 0x3C, 0x76]);
    m.debugger.step();
    m.run_frame();
    assert_eq!(registers(&m.cpu).af >> 8, 0x42);
    assert_eq!(registers(&m.cpu).pc, 2);
    assert_eq!(m.debugger.mode, RunMode::Step);
    m.run_frame();
    assert_eq!(registers(&m.cpu).af >> 8, 0x43);
    assert_eq!(m.run_state.t_states, 7 + 4);
    assert_eq!(m.interrupt_ctrl.tstates_accum, 7 + 4);
    assert_eq!(m.video.flash_counter, 0);
}

#[test]
fn step_once_runs_whatever_the_mode() {
    let mut m = machine(&[0x3E, 0x42, 0x3C, 0x76]);
    assert!(m.step_once());
    assert_eq!(registers(&m.cpu).af >> 8, 0x42);
    assert_eq!(m.debugger.mode, RunMode::Paused);
    assert!(m.last_snapshot.is_none());
    m.debug_enabled = true;
    assert!(m.step_once());
    let snap = m.last_snapshot.as_ref().unwrap();
    assert_eq!(snap.pc, 2);
    assert_eq!(snap.af >> 8, 0x43);
    assert!(snap.from_step);
    assert_eq!(snap.instr_len, 1);
    assert!(m.step_once());
    assert!(m.run_state.halted);
    // the scheduler does not count single steps
    assert_eq!(m.interrupt_ctrl.tstates_accum, 0);
}

#[test]
fn step_once_stops_where_the_engine_cannot_go() {
    let mut m = machine(&[]);
    let mut r = registers(&m.cpu);
    r.pc = 0xFFFE;
    set_registers(&mut m.cpu, &r);
    assert!(!m.step_once());
    assert_eq!(registers(&m.cpu).pc, 0xFFFE);
    assert_eq!(m.run_state.t_states, 0);
}

#[test]
fn run_mode_runs_one_frame_and_draws() {
    // a loop that writes to the screen: LD HL,0x4000 ; LD (HL),0xFF ; JR -4
    let mut m = machine(&[0x21, 0x00, 0x40, 0x36, 0xFF, 0x18, 0xFC]);
    zx_spectrum::engine::write(&mut m.cpu, 0x5800, 0x07);
    m.debugger.run();
    m.run_frame();
    assert_eq!(m.debugger.mode, RunMode::Run);
    assert!(m.run_state.t_states >= 69888);
    assert!(m.run_state.t_states < 69888 + 268);
    assert_eq!(m.video.flash_counter, 1);
    assert_eq!(&m.video.framebuffer[0..8], &[7; 8]);
    assert_eq!(&m.video.framebuffer[8..16], &[0; 8]);
    assert_eq!(read(&m.cpu, 0x0000), 0x21);
    assert!(!m.executed_instrs.is_empty());
    assert_eq!(m.executed_instrs.get(&3).map(|e| (e.0, e.1.as_str())), Some((2, "LD (HL),0xFF")));
}

#[test]
fn the_frame_interrupt_is_taken_in_run_mode() {
    // 0x0000: JR 0x0000, spinning with interrupts on
    // 0x0038: LD A,0x42 ; HALT
    let mut program = vec![0x18, 0xFE];
    program.resize(0x38, 0x00);
    program.extend_from_slice(&[0x3E, 0x42, 0x76]);
    let mut m = machine(&program);
    let mut r = registers(&m.cpu);
    r.sp = 0x8000;
    set_registers(&mut m.cpu, &r);
    m.debugger.run();
    m.run_frame();
    m.run_frame();
    assert_eq!(registers(&m.cpu).af >> 8, 0x42);
    assert_eq!(registers(&m.cpu).sp, 0x7FFE);
    assert_eq!(read(&m.cpu, 0x7FFE), 0x00);
    assert_eq!(read(&m.cpu, 0x7FFF), 0x00);
    assert!(m.run_state.halted);
    assert!(!m.run_state.iff1);
    assert_eq!(m.video.flash_counter, 2);
}

#[test]
fn the_breakpoint_pauses_the_run() {
    // JP 0xFFFF
    let mut m = machine(&[0xC3, 0xFF, 0xFF]);
    m.debugger.run();
    m.run_frame();
    assert_eq!(m.debugger.mode, RunMode::Paused);
    assert_eq!(registers(&m.cpu).pc, 0xFFFF);
    assert_eq!(m.run_state.t_states, 10);
    // the frame still ends with a picture and a vertical blank
    assert_eq!(m.video.flash_counter, 1);
    m.run_frame();
    assert_eq!(m.run_state.t_states, 10);
    assert_eq!(m.video.flash_counter, 1);
}

#[test]
fn an_instruction_that_the_engine_cannot_run_pauses_the_run() {
    // JP 0xFFFD, where a three-byte instruction would pass the top of memory
    let mut m = machine(&[0xC3, 0xFD, 0xFF]);
    write_range(&mut m.cpu, 0xFFFD, &[0x01, 0x34, 0x12]);
    m.debugger.run_fast();
    m.run_frame();
    assert_eq!(m.debugger.mode, RunMode::Paused);
    assert_eq!(registers(&m.cpu).pc, 0xFFFD);
    assert_eq!(registers(&m.cpu).bc, 0);
    assert_eq!(m.video.flash_counter, 1);
}

#[test]
fn fast_mode_runs_ten_frames() {
    let mut m = machine(&[0x21, 0x00, 0x40, 0x36, 0xFF, 0x18, 0xFC]);
    m.debugger.run_fast();
    m.run_frame();
    assert_eq!(m.debugger.mode, RunMode::RunFast);
    assert!(m.run_state.t_states >= 698880);
    assert!(m.run_state.t_states < 698880 + 2680);
    assert_eq!(m.video.flash_counter, 10);
    assert!(!m.video.flash_phase);
    m.run_frame();
    assert_eq!(m.video.flash_counter, 4);
    assert!(m.video.flash_phase);
    assert_eq!(m.video.framebuffer[0], 0);
}

#[test]
fn snapshots_are_kept_while_the_debugger_is_on() {
    let mut m = machine(&[0x18, 0xFE]);
    m.debugger.run();
    m.run_frame();
    assert!(m.last_snapshot.is_none());
    m.debug_enabled = true;
    m.run_frame();
    let snap = m.last_snapshot.as_ref().unwrap();
    assert!(!snap.from_step);
    assert_eq!(snap.mem_dump.len(), 512);
    assert_eq!(snap.stack_dump.len(), 32);
}

#[test]
fn keys_are_seen_by_the_running_program() {
    // LD A,0xFB ; IN A,(0xFE) ; LD (0x8000),A ; JR to itself
    let mut m = machine(&[0x3E, 0xFB, 0xDB, 0xFE, 0x32, 0x00, 0x80, 0x18, 0xFE]);
    m.run_state.iff1 = false;
    m.bus.keyboard.key_down(HostKey::Q);
    m.debugger.run();
    m.run_frame();
    assert_eq!(read(&m.cpu, 0x8000), 0xFE);
    m.bus.keyboard.key_up(HostKey::Q);
    m.reset_machine();
    m.run_state.iff1 = false;
    m.debugger.run();
    m.run_frame();
    assert_eq!(read(&m.cpu, 0x8000), 0xFF);
}

#[test]
fn stack_writes_are_logged_while_running() {
    // LD SP,0x9000 ; CALL 0x0008 ; (0x0006) HALT ... (0x0008) PUSH BC ; HALT
    let mut m = machine(&[0x31, 0x00, 0x90, 0xCD, 0x08, 0x00, 0x76, 0x00, 0xC5, 0x76]);
    m.debugger.run();
    m.run_frame();
    assert_eq!(m.stack_tracker.last_write_to(0x8FFE), Some(StackWriteKind::Call));
    assert_eq!(m.stack_tracker.last_write_to(0x8FFF), Some(StackWriteKind::Call));
    assert_eq!(m.stack_tracker.last_write_to(0x8FFC), Some(StackWriteKind::Push));
    assert_eq!(m.stack_tracker.last_write_to(0x8FFD), Some(StackWriteKind::Push));
}

#[test]
fn reset_keeps_the_memory() {
    let mut m = machine(&[0x3E, 0x42, 0x32, 0x00, 0x80, 0x76]);
    m.debug_enabled = true;
    m.debugger.run();
    m.run_frame();
    assert!(m.run_state.halted);
    assert_eq!(read(&m.cpu, 0x8000), 0x42);
    m.interrupt_pending = true;
    m.reset_machine();
    let r = registers(&m.cpu);
    assert_eq!(r.pc, 0x0000);
    assert_eq!(r.sp, 0xFFFF);
    assert_eq!(r.af >> 8, 0x42);
    assert_eq!(read(&m.cpu, 0x8000), 0x42);
    assert!(!m.run_state.halted);
    assert!(m.run_state.allow_interrupts);
    assert!(m.run_state.iff1);
    assert_eq!(m.run_state.t_states, 0);
    assert!(!m.interrupt_pending);
    assert_eq!(m.interrupt_ctrl.tstates_accum, 0);
    assert!(m.last_snapshot.is_none());
    assert!(m.executed_instrs.is_empty());
    assert_eq!(m.debugger.mode, RunMode::Paused);
    assert_eq!(m.video.flash_counter, 1);
    assert!(m.debug_enabled);
}

#[test]
fn power_reset_clears_the_ram_and_the_trackers() {
    let mut m = machine(&[0x31, 0x00, 0x90, 0xC5, 0x3E, 0x42, 0x32, 0xFF, 0xFF, 0x76]);
    m.debugger.run();
    m.run_frame();
    assert_eq!(read(&m.cpu, 0xFFFF), 0x42);
    assert!(m.stack_tracker.len() > 0);
    assert!(m.unimpl_tracker.report(0x1234));
    zx_spectrum::engine::write(&mut m.cpu, 0x4000, 0x11);
    m.power_reset_machine();
    assert_eq!(read(&m.cpu, 0x4000), 0x00);
    assert_eq!(read(&m.cpu, 0xFFFF), 0x00);
    assert_eq!(read(&m.cpu, 0x0000), 0x31);
    assert_eq!(read(&m.cpu, 0x3FFF), 0x00);
    assert_eq!(m.stack_tracker.len(), 0);
    assert_eq!(m.stack_tracker.max_events(), 512);
    assert!(m.unimpl_tracker.report(0x1234));
    assert_eq!(m.video.flash_counter, 0);
    assert!(!m.video.flash_phase);
    assert_eq!(registers(&m.cpu).pc, 0);
    assert_eq!(registers(&m.cpu).sp, 0xFFFF);
    assert_eq!(m.debugger.mode, RunMode::Paused);
    // the ROM is still protected
    zx_spectrum::engine::write(&mut m.cpu, 0x0000, 0x00);
    assert_eq!(read(&m.cpu, 0x0000), 0x31);
}

#[test]
fn a_load_settles_the_machine() {
    let mut m = machine(&[0x76]);
    m.debug_enabled = true;
    m.debugger.run();
    m.run_frame();
    assert!(m.run_state.halted);
    assert!(m.last_snapshot.is_some());
    assert!(m.interrupt_ctrl.tstates_accum > 0 || m.interrupt_pending);

    assert_eq!(m.load("bin", &[0x3E, 0x01, 0x76, 0x00]), Ok(LoadResult::Bin));
    assert_eq!(m.load_state, LoadState::Bin);
    assert!(!m.interrupt_pending);
    assert_eq!(m.interrupt_ctrl.tstates_accum, 0);
    assert!(m.last_snapshot.is_none());
    assert!(!m.run_state.halted);
    assert!(!m.run_state.allow_interrupts);
    assert_eq!(registers(&m.cpu).pc, 0x8000);
    assert_eq!(m.debugger.mode, RunMode::Run);

    assert_eq!(m.load("rom", &rom_with(&[0xAF])), Ok(LoadResult::Rom));
    assert_eq!(m.load_state, LoadState::Rom);
    assert!(m.run_state.allow_interrupts);
    assert_eq!(read(&m.cpu, 0x0000), 0xAF);
    assert_eq!(read(&m.cpu, 0x8000), 0x3E);
}

#[test]
fn a_refused_load_leaves_the_machine_as_it_was() {
    let mut m = machine(&[0x3E, 0x42, 0x76]);
    m.debug_enabled = true;
    m.debugger.run();
    m.run_frame();
    let r = registers(&m.cpu);
    let t = m.run_state.t_states;
    let accum = m.interrupt_ctrl.tstates_accum;
    assert_eq!(m.load("sna", &[0; 100]), Err(LoadError::SizeMismatch));
    assert_eq!(m.load("xyz", &[0; 100]), Err(LoadError::UnsupportedFormat));
    assert_eq!(m.load("z80", &[0; 31]), Err(LoadError::TruncatedHeader));
    assert_eq!(registers(&m.cpu), r);
    assert_eq!(m.run_state.t_states, t);
    assert!(m.run_state.halted);
    assert_eq!(m.interrupt_ctrl.tstates_accum, accum);
    assert!(m.last_snapshot.is_some());
    assert_eq!(m.load_state, LoadState::Empty);
}

#[test]
fn load_rom_replaces_the_rom() {
    let mut m = machine(&[0xF3]);
    let mut r = registers(&m.cpu);
    r.pc = 0x1234;
    r.sp = 0x8000;
    set_registers(&mut m.cpu, &r);
    assert_eq!(m.load_rom(&rom_with(&[0xAF, 0xC9])), Ok(()));
    assert_eq!(read(&m.cpu, 0x0000), 0xAF);
    assert_eq!(read(&m.cpu, 0x0001), 0xC9);
    assert_eq!(registers(&m.cpu).pc, 0);
    assert_eq!(registers(&m.cpu).sp, 0xFFFF);
    assert_eq!(m.load_rom(&[0; 10]), Err(LoadError::SizeMismatch));
    assert_eq!(read(&m.cpu, 0x0000), 0xAF);
}

#[test]
fn update_video_composes_without_a_vertical_blank() {
    let mut m = machine(&[]);
    zx_spectrum::engine::write(&mut m.cpu, 0x4000, 0x80);
    zx_spectrum::engine::write(&mut m.cpu, 0x5800, 0x47);
    m.update_video_from_bus();
    assert_eq!(&m.video.framebuffer[0..3], &[15, 8, 8]);
    assert_eq!(m.video.flash_counter, 0);
}
