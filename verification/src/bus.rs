//! The ports of the ULA: the keyboard on reads of even ports, the border
//! colour on writes to them.

use crate::keyboard::{scan, Keyboard};
use vstd::prelude::*;

verus! {

/// The part of the bus that the ULA answers: it owns the keyboard and keeps
/// the border colour.
pub struct ZxBus {
    pub keyboard: Keyboard,
    pub border: u8,
}

/// Whether the ULA answers the port: its address has bit 0 clear.
pub open spec fn is_ula_port(port: u16) -> bool {
    port % 2 == 0
}

/// The byte that a read of `port` gives. The ULA puts the selected half-rows
/// on bits 0 to 4 and holds bits 5, 6 and 7 high; any other port floats at
/// 0xFF.
pub open spec fn port_value(rows: Seq<u8>, port: u16) -> u8 {
    if is_ula_port(port) {
        (scan(rows, (port / 256) as u8, 8) & 0x1F) | 0xE0
    } else {
        0xFF
    }
}

impl ZxBus {
    pub fn new() -> (bus: Self)
        ensures
            bus.keyboard.rows@ == Seq::new(8, |r: int| 0x1Fu8),
            bus.border == 0,
    {
        ZxBus { keyboard: Keyboard::new(), border: 0 }
    }

    /// Reads a port. Nothing on the bus changes.
    pub fn in_port(&mut self, port: u16) -> (value: u8)
        ensures
            value == port_value(old(self).keyboard.rows@, port),
            value & 0xE0 == 0xE0,
            final(self).keyboard.rows@ == old(self).keyboard.rows@,
            final(self).border == old(self).border,
    {
        if port % 2 == 0 {
            let high = (port / 256) as u8;
            let keys = self.keyboard.read_port_fe(high);
            let value = (keys & 0x1F) | 0xE0;
            assert(((keys & 0x1F) | 0xE0) & 0xE0 == 0xE0) by (bit_vector);
            value
        } else {
            assert(0xFFu8 & 0xE0 == 0xE0) by (bit_vector);
            0xFF
        }
    }

    /// Writes a port. An even port takes the low three bits as the border
    /// colour; any other write is dropped.
    pub fn out_port(&mut self, port: u16, value: u8)
        ensures
            final(self).border == if is_ula_port(port) {
                value & 0x07
            } else {
                old(self).border
            },
            final(self).keyboard.rows@ == old(self).keyboard.rows@,
    {
        if port % 2 == 0 {
            self.border = value & 0x07;
        }
    }
}

} // verus!
