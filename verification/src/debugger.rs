//! The debugger's run mode and its one fixed breakpoint.

use vstd::prelude::*;

verus! {

/// How the machine runs from frame to frame.
#[derive(Copy, Clone, PartialEq, Eq, Debug, Structural)]
pub enum RunMode {
    Step,
    Run,
    RunFast,
    Paused,
}

/// The fixed breakpoint. 0xFFFF stands for "no breakpoint".
pub const BREAKPOINT_ADDR: u16 = 0xFFFF;

pub struct Debugger {
    pub mode: RunMode,
}

/// Whether a machine in `mode` stops before the instruction at `pc`.
pub open spec fn breaks_at(mode: RunMode, pc: u16) -> bool {
    (mode == RunMode::Run || mode == RunMode::RunFast) && pc == BREAKPOINT_ADDR
}

impl Debugger {
    pub fn new() -> (d: Self)
        ensures
            d.mode == RunMode::Paused,
    {
        Debugger { mode: RunMode::Paused }
    }

    /// Tells whether to stop before the instruction at `pc`. A running
    /// machine that reaches the breakpoint is paused; nothing else changes
    /// the mode.
    pub fn check_breakpoint(&mut self, pc: u16) -> (hit: bool)
        ensures
            hit == breaks_at(old(self).mode, pc),
            final(self).mode == if hit {
                RunMode::Paused
            } else {
                old(self).mode
            },
    {
        match self.mode {
            RunMode::Run | RunMode::RunFast => {
                if pc == BREAKPOINT_ADDR {
                    self.mode = RunMode::Paused;
                    return true;
                }
            },
            _ => {},
        }
        false
    }

    pub fn run(&mut self)
        ensures
            final(self).mode == RunMode::Run,
    {
        self.mode = RunMode::Run;
    }

    pub fn step(&mut self)
        ensures
            final(self).mode == RunMode::Step,
    {
        self.mode = RunMode::Step;
    }

    pub fn pause(&mut self)
        ensures
            final(self).mode == RunMode::Paused,
    {
        self.mode = RunMode::Paused;
    }

    pub fn run_fast(&mut self)
        ensures
            final(self).mode == RunMode::RunFast,
    {
        self.mode = RunMode::RunFast;
    }
}

} // verus!
