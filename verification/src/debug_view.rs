//! What the debugger shows of a snapshot: the instructions around the
//! program counter, the flags that an instruction changed, and the top of
//! the stack with the cause of each byte.

use crate::cpu_exec::CpuSnapshot;
use crate::disasm::{disassemble, disassembled, window_index};
use crate::engine::addr_add;
use crate::stack_tracker::{newest_for, StackTracker, StackWriteKind};
use vstd::prelude::*;
use vstd::string::StringExecFns;

verus! {

/// Instructions that are decoded for the window, from 15 bytes before the
/// program counter.
pub const DECODED_LINES: usize = 40;

/// Instructions that the window shows.
pub const SHOWN_LINES: usize = 20;

/// Instructions that the window shows before the one at the program
/// counter.
pub const LINES_BEFORE: usize = 5;

/// Bytes before the program counter at which decoding starts.
pub const BACKTRACK: u16 = 15;

/// Bytes of the stack that the debugger shows.
pub const STACK_LINES: usize = 15;

/// How an instruction changed a flag.
#[derive(Copy, Clone, Debug, PartialEq, Eq, Structural)]
pub enum FlagChange {
    Same,
    Raised,
    Cleared,
}

/// One line of the instruction window.
#[derive(Debug)]
pub struct InstrLine {
    pub addr: u16,
    pub mnemonic: String,
    pub len: u8,
}

/// One line of the stack view.
#[derive(Copy, Clone, Debug, PartialEq, Eq, Structural)]
pub struct StackLine {
    pub addr: u16,
    pub value: u8,
    /// Whether the stack pointer points at this byte.
    pub at_sp: bool,
    /// What wrote the byte, as far as the log knows.
    pub kind: Option<StackWriteKind>,
}

/// Bit `bit` of a byte.
pub open spec fn flag_bit(f: u8, bit: u8) -> bool {
    (f >> bit) & 1 == 1
}

/// How bit `bit` differs between the flags before and after.
pub open spec fn flag_changed(before: u8, after: u8, bit: u8) -> FlagChange {
    if flag_bit(before, bit) == flag_bit(after, bit) {
        FlagChange::Same
    } else if flag_bit(after, bit) {
        FlagChange::Raised
    } else {
        FlagChange::Cleared
    }
}

/// Mnemonic and length of the instruction at `addr`, read from a dump of
/// memory that starts at `base`. An address outside the dump gives `??`.
pub open spec fn line_at(dump: Seq<u8>, base: u16, addr: u16) -> (Seq<char>, u8) {
    if window_index(addr, base) >= dump.len() {
        ("??"@, 1u8)
    } else {
        disassembled(dump, addr, base)
    }
}

/// The address of line `k` where the first line is at `start`: each line
/// begins where the one before ends.
pub open spec fn line_addr(dump: Seq<u8>, base: u16, start: u16, k: nat) -> u16
    decreases k,
{
    if k == 0 {
        start
    } else {
        let before = line_addr(dump, base, start, (k - 1) as nat);
        addr_add(before, line_at(dump, base, before).1 as int)
    }
}

/// The first of `n` lines that stands at `pc`, or zero if none does.
pub open spec fn line_of_pc(dump: Seq<u8>, base: u16, start: u16, pc: u16, n: nat) -> nat
    decreases n,
{
    if n == 0 {
        0
    } else {
        let earlier = line_of_pc(dump, base, start, pc, (n - 1) as nat);
        if line_addr(dump, base, start, earlier) == pc {
            earlier
        } else if line_addr(dump, base, start, (n - 1) as nat) == pc {
            (n - 1) as nat
        } else {
            0
        }
    }
}

/// The address at which decoding starts for a program counter.
pub open spec fn first_decoded(pc: u16) -> u16 {
    if pc >= BACKTRACK {
        (pc - BACKTRACK) as u16
    } else {
        0
    }
}

/// The line with which the window begins: five lines before the one at the
/// program counter, or the first line.
pub open spec fn first_shown(dump: Seq<u8>, base: u16, pc: u16) -> nat {
    let at = line_of_pc(dump, base, first_decoded(pc), pc, DECODED_LINES as nat);
    if at >= LINES_BEFORE {
        (at - LINES_BEFORE) as nat
    } else {
        0
    }
}

impl InstrLine {
    /// Whether this is line `k` of the lines decoded from `start`.
    pub open spec fn is_line(&self, dump: Seq<u8>, base: u16, start: u16, k: nat) -> bool {
        &&& self.addr == line_addr(dump, base, start, k)
        &&& self.mnemonic@ == line_at(dump, base, self.addr).0
        &&& self.len == line_at(dump, base, self.addr).1
    }
}

/// Tells how an instruction changed the flag at `bit`.
pub fn flag_change(before: u8, after: u8, bit: u8) -> (change: FlagChange)
    requires
        bit < 8,
    ensures
        change == flag_changed(before, after, bit),
{
    let was = (before >> bit) & 1 == 1;
    let is = (after >> bit) & 1 == 1;
    if was == is {
        FlagChange::Same
    } else if is {
        FlagChange::Raised
    } else {
        FlagChange::Cleared
    }
}

/// Decodes the instruction at `addr` from a dump of memory that starts at
/// `base`.
pub fn decode_line(dump: &[u8], base: u16, addr: u16) -> (line: (String, u8))
    ensures
        line.0@ == line_at(dump@, base, addr).0,
        line.1 == line_at(dump@, base, addr).1,
        1 <= line.1 <= 4,
{
    if addr.wrapping_sub(base) as usize >= dump.len() {
        (String::from_str("??"), 1)
    } else {
        disassemble(dump, addr, base)
    }
}

/// Decodes `count` instructions in a row, the first at `start`.
pub fn decode_lines(dump: &[u8], base: u16, start: u16, count: usize) -> (lines: Vec<InstrLine>)
    ensures
        lines@.len() == count,
        forall|k: int|
            0 <= k < count ==> (#[trigger] lines@[k]).is_line(dump@, base, start, k as nat),
{
    let mut lines: Vec<InstrLine> = Vec::new();
    let mut addr = start;
    while lines.len() < count
        invariant
            lines@.len() <= count,
            addr == line_addr(dump@, base, start, lines@.len()),
            forall|k: int|
                0 <= k < lines@.len() ==> (#[trigger] lines@[k]).is_line(
                    dump@,
                    base,
                    start,
                    k as nat,
                ),
        decreases count - lines@.len(),
    {
        let (mnemonic, len) = decode_line(dump, base, addr);
        lines.push(InstrLine { addr, mnemonic, len });
        addr = addr.wrapping_add(len as u16);
    }
    lines
}

/// The instruction window of a snapshot: forty instructions are decoded
/// from 15 bytes before the program counter, and up to twenty of them are
/// shown, beginning five before the one at the program counter.
pub fn instruction_window(snap: &CpuSnapshot) -> (lines: Vec<InstrLine>)
    ensures
        lines@.len() == if first_shown(snap.mem_dump@, snap.mem_base, snap.pc) + SHOWN_LINES
            <= DECODED_LINES {
            SHOWN_LINES as int
        } else {
            DECODED_LINES - first_shown(snap.mem_dump@, snap.mem_base, snap.pc)
        },
        forall|k: int|
            0 <= k < lines@.len() ==> (#[trigger] lines@[k]).is_line(
                snap.mem_dump@,
                snap.mem_base,
                first_decoded(snap.pc),
                first_shown(snap.mem_dump@, snap.mem_base, snap.pc) + k as nat,
            ),
{
    let start = snap.pc.saturating_sub(BACKTRACK);
    let mut decoded = decode_lines(snap.mem_dump.as_slice(), snap.mem_base, start, DECODED_LINES);
    let ghost dump = snap.mem_dump@;
    let ghost all = decoded@;
    let mut at: usize = 0;
    let mut found = false;
    let mut k: usize = 0;
    while k < DECODED_LINES
        invariant
            k <= DECODED_LINES,
            decoded@ == all,
            all.len() == DECODED_LINES,
            forall|j: int|
                0 <= j < DECODED_LINES ==> (#[trigger] all[j]).is_line(
                    dump,
                    snap.mem_base,
                    start,
                    j as nat,
                ),
            at == line_of_pc(dump, snap.mem_base, start, snap.pc, k as nat),
            at < DECODED_LINES,
            found == (line_addr(dump, snap.mem_base, start, at as nat) == snap.pc && k > 0),
            !found ==> at == 0,
        decreases DECODED_LINES - k,
    {
        if !found && decoded[k].addr == snap.pc {
            at = k;
            found = true;
        }
        k = k + 1;
    }
    let first = if at >= LINES_BEFORE {
        at - LINES_BEFORE
    } else {
        0
    };
    let end = if first + SHOWN_LINES <= DECODED_LINES {
        first + SHOWN_LINES
    } else {
        DECODED_LINES
    };
    decoded.truncate(end);
    let shown = decoded.split_off(first);
    shown
}

/// The top of the stack as a snapshot shows it: for each of the first 15
/// bytes its address, its value, whether the stack pointer points at it,
/// and what the log says has written it.
pub fn stack_lines(snap: &CpuSnapshot, tracker: &StackTracker) -> (lines: Vec<StackLine>)
    ensures
        lines@.len() == if snap.stack_dump@.len() < STACK_LINES {
            snap.stack_dump@.len()
        } else {
            STACK_LINES as nat
        },
        forall|i: int|
            0 <= i < lines@.len() ==> #[trigger] lines@[i] == (StackLine {
                addr: addr_add(snap.stack_base, i),
                value: snap.stack_dump@[i],
                at_sp: addr_add(snap.stack_base, i) == snap.sp,
                kind: newest_for(tracker@, addr_add(snap.stack_base, i)),
            }),
{
    let mut lines: Vec<StackLine> = Vec::new();
    let count = if snap.stack_dump.len() < STACK_LINES {
        snap.stack_dump.len()
    } else {
        STACK_LINES
    };
    let mut i: usize = 0;
    while i < count
        invariant
            i <= count,
            count <= STACK_LINES,
            count <= snap.stack_dump@.len(),
            lines@.len() == i,
            forall|j: int|
                0 <= j < i ==> #[trigger] lines@[j] == (StackLine {
                    addr: addr_add(snap.stack_base, j),
                    value: snap.stack_dump@[j],
                    at_sp: addr_add(snap.stack_base, j) == snap.sp,
                    kind: newest_for(tracker@, addr_add(snap.stack_base, j)),
                }),
        decreases count - i,
    {
        let addr = snap.stack_base.wrapping_add(i as u16);
        lines.push(
            StackLine {
                addr,
                value: snap.stack_dump[i],
                at_sp: addr == snap.sp,
                kind: tracker.last_write_to(addr),
            },
        );
        i = i + 1;
    }
    lines
}

} // verus!
