//! The video composer: from the Spectrum's interleaved bitmap and its
//! attribute bytes to a frame of 256 by 192 palette indices.

use crate::engine::{byte_at, engine_memory, read};
use vstd::prelude::*;
use zilog_z80::cpu::CPU;

verus! {

/// Pixels in a line.
pub const SCREEN_WIDTH: usize = 256;

/// Lines in a frame.
pub const SCREEN_HEIGHT: usize = 192;

/// Pixels in a frame.
pub const FRAME_SIZE: usize = 49152;

/// Vertical blanks between two changes of the FLASH phase.
pub const FLASH_PERIOD: u32 = 16;

/// The composed frame and the state of FLASH.
pub struct Video {
    /// One palette index, 0 to 15, for each pixel, line by line.
    pub framebuffer: Vec<u8>,
    pub scale: u32,
    /// Vertical blanks since the FLASH phase last changed.
    pub flash_counter: u32,
    /// Whether flashing cells show ink and paper swapped.
    pub flash_phase: bool,
}

/// The address of the bitmap byte for line `y` and byte column `x_byte`.
/// The bits of `y` go into the address as band (bits 6 and 7), then row in
/// the cell (bits 0 to 2), then cell row in the band (bits 3 to 5).
pub open spec fn screen_addr(x_byte: int, y: int) -> int {
    0x4000 + (y / 64) * 2048 + (y % 8) * 256 + ((y / 8) % 8) * 32 + x_byte
}

/// The address of the attribute byte of the cell that holds line `y` and
/// byte column `x_byte`.
pub open spec fn attr_addr(x_byte: int, y: int) -> int {
    0x5800 + (y / 8) * 32 + x_byte
}

/// The weight of pixel `bit` of a bitmap byte: the leftmost pixel is the
/// top bit.
pub open spec fn pixel_weight(bit: int) -> int {
    if bit == 0 {
        128
    } else if bit == 1 {
        64
    } else if bit == 2 {
        32
    } else if bit == 3 {
        16
    } else if bit == 4 {
        8
    } else if bit == 5 {
        4
    } else if bit == 6 {
        2
    } else {
        1
    }
}

/// The palette index of the ink of a cell: bits 0 to 2 of the attribute,
/// plus 8 when it is bright.
pub open spec fn attr_ink(attr: u8) -> u8 {
    (attr % 8 + if (attr / 64) % 2 == 1 {
        8int
    } else {
        0int
    }) as u8
}

/// The palette index of the paper of a cell: bits 3 to 5 of the attribute,
/// plus 8 when it is bright.
pub open spec fn attr_paper(attr: u8) -> u8 {
    ((attr / 8) % 8 + if (attr / 64) % 2 == 1 {
        8int
    } else {
        0int
    }) as u8
}

/// The palette index of one pixel of a cell. A set bit shows the ink, a
/// clear bit the paper; a flashing cell (bit 7 of the attribute) swaps the
/// two while the phase is on.
pub open spec fn pixel_color(pixel_byte: u8, attr: u8, phase: bool, bit: int) -> u8 {
    let swapped = attr >= 128 && phase;
    let lit = (pixel_byte as int / pixel_weight(bit)) % 2 == 1;
    if lit != swapped {
        attr_ink(attr)
    } else {
        attr_paper(attr)
    }
}

/// The palette index of the pixel in column `x` of line `y`.
pub open spec fn composed_pixel(memory: Seq<u8>, phase: bool, x: int, y: int) -> u8 {
    pixel_color(
        byte_at(memory, screen_addr(x / 8, y) as u16),
        byte_at(memory, attr_addr(x / 8, y) as u16),
        phase,
        x % 8,
    )
}

/// The frame that the memory shows.
pub open spec fn composed_frame(memory: Seq<u8>, phase: bool) -> Seq<u8> {
    Seq::new(FRAME_SIZE as nat, |i: int| composed_pixel(memory, phase, i % 256, i / 256))
}

/// The FLASH counter and phase after one more vertical blank.
pub open spec fn after_vsync(counter: u32, phase: bool) -> (u32, bool) {
    if counter + 1 >= FLASH_PERIOD {
        (0u32, !phase)
    } else {
        ((counter + 1) as u32, phase)
    }
}

/// The FLASH counter after `n` vertical blanks, and the number of times
/// that the phase has changed on the way.
pub open spec fn after_vsyncs(counter: u32, n: nat) -> (u32, nat)
    decreases n,
{
    if n == 0 {
        (counter, 0)
    } else {
        let (c, toggles) = after_vsyncs(counter, (n - 1) as nat);
        (
            after_vsync(c, false).0,
            if after_vsync(c, false).1 {
                toggles + 1
            } else {
                toggles
            },
        )
    }
}

/// The FLASH counter and phase after `n` vertical blanks.
pub open spec fn flash_after(counter: u32, phase: bool, n: nat) -> (u32, bool)
    decreases n,
{
    if n == 0 {
        (counter, phase)
    } else {
        let (c, p) = flash_after(counter, phase, (n - 1) as nat);
        after_vsync(c, p)
    }
}

/// The red, green and blue of a palette index. Bit 1 of the index is red,
/// bit 2 green, bit 0 blue; the indices from 8 on are bright.
pub open spec fn palette(index: u8) -> (u8, u8, u8) {
    let level = if index >= 8 {
        255u8
    } else {
        192u8
    };
    let code = index % 8;
    (
        if (code / 2) % 2 == 1 {
            level
        } else {
            0
        },
        if (code / 4) % 2 == 1 {
            level
        } else {
            0
        },
        if code % 2 == 1 {
            level
        } else {
            0
        },
    )
}

impl Video {
    /// Whether the frame has its size.
    pub open spec fn wf(&self) -> bool {
        self.framebuffer@.len() == FRAME_SIZE
    }

    /// A black frame, with FLASH at rest.
    pub fn new(scale: u32) -> (v: Self)
        ensures
            v.wf(),
            v.framebuffer@ == Seq::new(FRAME_SIZE as nat, |i: int| 0u8),
            v.scale == scale,
            v.flash_counter == 0,
            v.flash_phase == false,
    {
        let mut framebuffer: Vec<u8> = Vec::with_capacity(FRAME_SIZE);
        let mut i: usize = 0;
        while i < FRAME_SIZE
            invariant
                i <= FRAME_SIZE,
                framebuffer@ == Seq::new(i as nat, |j: int| 0u8),
            decreases FRAME_SIZE - i,
        {
            framebuffer.push(0);
            i = i + 1;
            assert(framebuffer@ =~= Seq::new(i as nat, |j: int| 0u8));
        }
        Video { framebuffer, scale, flash_counter: 0, flash_phase: false }
    }

    /// Puts FLASH at rest.
    pub fn reset_timing(&mut self)
        ensures
            final(self).flash_counter == 0,
            final(self).flash_phase == false,
            final(self).framebuffer == old(self).framebuffer,
            final(self).scale == old(self).scale,
    {
        self.flash_counter = 0;
        self.flash_phase = false;
    }

    /// Composes the frame from the engine's memory. The FLASH phase is
    /// read, not advanced.
    #[verifier::rlimit(40)]
    pub fn update_from_bus(&mut self, cpu: &CPU)
        requires
            old(self).wf(),
        ensures
            final(self).framebuffer@ == composed_frame(engine_memory(*cpu), old(self).flash_phase),
            final(self).scale == old(self).scale,
            final(self).flash_counter == old(self).flash_counter,
            final(self).flash_phase == old(self).flash_phase,
    {
        let ghost memory = engine_memory(*cpu);
        let ghost phase = self.flash_phase;
        let mut y: usize = 0;
        while y < SCREEN_HEIGHT
            invariant
                y <= SCREEN_HEIGHT,
                self.framebuffer@.len() == FRAME_SIZE,
                memory == engine_memory(*cpu),
                phase == self.flash_phase,
                self.scale == old(self).scale,
                self.flash_counter == old(self).flash_counter,
                forall|j: int|
                    0 <= j < y * 256 ==> self.framebuffer@[j] == composed_pixel(
                        memory,
                        phase,
                        j % 256,
                        j / 256,
                    ),
            decreases SCREEN_HEIGHT - y,
        {
            let mut x_byte: usize = 0;
            while x_byte < 32
                invariant
                    y < SCREEN_HEIGHT,
                    x_byte <= 32,
                    self.framebuffer@.len() == FRAME_SIZE,
                    memory == engine_memory(*cpu),
                    phase == self.flash_phase,
                    self.scale == old(self).scale,
                    self.flash_counter == old(self).flash_counter,
                    forall|j: int|
                        0 <= j < y * 256 + x_byte * 8 ==> self.framebuffer@[j] == composed_pixel(
                            memory,
                            phase,
                            j % 256,
                            j / 256,
                        ),
                decreases 32 - x_byte,
            {
                let pixel_byte = read(cpu, zx_screen_addr(x_byte, y));
                let attr = read(cpu, (0x5800 + (y / 8) * 32 + x_byte) as u16);
                let bright: u8 = if (attr / 64) % 2 == 1 {
                    8
                } else {
                    0
                };
                let ink = attr % 8 + bright;
                let paper = (attr / 8) % 8 + bright;
                let swapped = attr >= 128 && self.flash_phase;
                let mut bit: usize = 0;
                while bit < 8
                    invariant
                        y < SCREEN_HEIGHT,
                        x_byte < 32,
                        bit <= 8,
                        self.framebuffer@.len() == FRAME_SIZE,
                        memory == engine_memory(*cpu),
                        phase == self.flash_phase,
                        self.scale == old(self).scale,
                        self.flash_counter == old(self).flash_counter,
                        pixel_byte == byte_at(memory, screen_addr(x_byte as int, y as int) as u16),
                        attr == byte_at(memory, attr_addr(x_byte as int, y as int) as u16),
                        ink == attr_ink(attr),
                        paper == attr_paper(attr),
                        swapped == (attr >= 128 && phase),
                        forall|j: int|
                            0 <= j < y * 256 + x_byte * 8 + bit ==> self.framebuffer@[j]
                                == composed_pixel(memory, phase, j % 256, j / 256),
                    decreases 8 - bit,
                {
                    let lit = (pixel_byte / weight(bit)) % 2 == 1;
                    let color = if lit != swapped {
                        ink
                    } else {
                        paper
                    };
                    let at = y * 256 + x_byte * 8 + bit;
                    let ghost shown = self.framebuffer@;
                    self.framebuffer[at] = color;
                    proof {
                        lemma_pixel_place(memory, phase, y as int, x_byte as int, bit as int);
                        assert(self.framebuffer@ == shown.update(at as int, color));
                    }
                    bit = bit + 1;
                }
                x_byte = x_byte + 1;
            }
            y = y + 1;
        }
        assert(self.framebuffer@ =~= composed_frame(memory, phase));
    }

    /// Counts one vertical blank. Every sixteenth one changes the FLASH
    /// phase.
    pub fn on_vsync(&mut self)
        ensures
            (final(self).flash_counter, final(self).flash_phase) == after_vsync(
                old(self).flash_counter,
                old(self).flash_phase,
            ),
            final(self).framebuffer == old(self).framebuffer,
            final(self).scale == old(self).scale,
    {
        if self.flash_counter >= FLASH_PERIOD - 1 {
            self.flash_counter = 0;
            self.flash_phase = !self.flash_phase;
        } else {
            self.flash_counter = self.flash_counter + 1;
        }
    }
}

fn weight(bit: usize) -> (w: u8)
    requires
        bit < 8,
    ensures
        w == pixel_weight(bit as int),
{
    match bit {
        0 => 128,
        1 => 64,
        2 => 32,
        3 => 16,
        4 => 8,
        5 => 4,
        6 => 2,
        _ => 1,
    }
}

/// The address of the bitmap byte for line `y` and byte column `x_byte`.
pub fn zx_screen_addr(x_byte: usize, y: usize) -> (addr: u16)
    requires
        x_byte < 32,
        y < SCREEN_HEIGHT,
    ensures
        addr == screen_addr(x_byte as int, y as int),
        0x4000 <= addr < 0x5800,
{
    (0x4000 + (y / 64) * 2048 + (y % 8) * 256 + ((y / 8) % 8) * 32 + x_byte) as u16
}

/// The red, green and blue of a palette index.
pub fn zx_color_from_index(index: u8) -> (rgb: (u8, u8, u8))
    ensures
        rgb == palette(index),
{
    let level: u8 = if index >= 8 {
        255
    } else {
        192
    };
    let code = index % 8;
    (
        if (code / 2) % 2 == 1 {
            level
        } else {
            0
        },
        if (code / 4) % 2 == 1 {
            level
        } else {
            0
        },
        if code % 2 == 1 {
            level
        } else {
            0
        },
    )
}

/// The pixel at `bit` of byte column `x_byte` in line `y` stands at index
/// `y * 256 + x_byte * 8 + bit` of the frame.
pub proof fn lemma_pixel_place(memory: Seq<u8>, phase: bool, y: int, x_byte: int, bit: int)
    requires
        0 <= y < SCREEN_HEIGHT,
        0 <= x_byte < 32,
        0 <= bit < 8,
    ensures
        composed_pixel(
            memory,
            phase,
            (y * 256 + x_byte * 8 + bit) % 256,
            (y * 256 + x_byte * 8 + bit) / 256,
        ) == pixel_color(
            byte_at(memory, screen_addr(x_byte, y) as u16),
            byte_at(memory, attr_addr(x_byte, y) as u16),
            phase,
            bit,
        ),
{
    let at = y * 256 + x_byte * 8 + bit;
    assert(at % 256 == x_byte * 8 + bit);
    assert(at / 256 == y);
    assert((x_byte * 8 + bit) / 8 == x_byte);
    assert((x_byte * 8 + bit) % 8 == bit);
}

/// While the counter stays below 16, it only counts and the phase stays.
pub proof fn lemma_flash_runs_up(counter: u32, phase: bool, n: nat)
    requires
        counter + n < FLASH_PERIOD,
    ensures
        flash_after(counter, phase, n) == ((counter + n) as u32, phase),
        after_vsyncs(counter, n) == ((counter + n) as u32, 0nat),
    decreases n,
{
    if n > 0 {
        lemma_flash_runs_up(counter, phase, (n - 1) as nat);
    }
}

/// Vertical blanks can be counted in two goes.
pub proof fn lemma_flash_splits(counter: u32, phase: bool, a: nat, b: nat)
    ensures
        flash_after(counter, phase, a + b) == flash_after(
            flash_after(counter, phase, a).0,
            flash_after(counter, phase, a).1,
            b,
        ),
        after_vsyncs(counter, a + b) == (
            after_vsyncs(after_vsyncs(counter, a).0, b).0,
            after_vsyncs(counter, a).1 + after_vsyncs(after_vsyncs(counter, a).0, b).1,
        ),
    decreases b,
{
    if b > 0 {
        lemma_flash_splits(counter, phase, a, (b - 1) as nat);
        assert(a + b - 1 == a + (b - 1));
    }
}

/// FLASH phase: sixteen vertical blanks bring the counter back to where it
/// was and change the phase exactly once. From rest the counter is then at
/// zero again.
pub proof fn lemma_flash_period(counter: u32, phase: bool)
    requires
        counter < FLASH_PERIOD,
    ensures
        after_vsyncs(counter, 16) == (counter, 1nat),
        flash_after(counter, phase, 16) == (counter, !phase),
{
    let up = (15 - counter) as nat;
    lemma_flash_runs_up(counter, phase, up);
    assert(flash_after(counter, phase, up + 1) == (0u32, !phase)) by {
        assert(flash_after(counter, phase, up) == (15u32, phase));
    }
    assert(after_vsyncs(counter, up + 1) == (0u32, 1nat)) by {
        assert(after_vsyncs(counter, up) == (15u32, 0nat));
    }
    lemma_flash_runs_up(0, !phase, counter as nat);
    lemma_flash_splits(counter, phase, up + 1, counter as nat);
    assert(up + 1 + counter == 16);
}

/// Every pixel of a composed frame is a palette index below 16.
pub proof fn lemma_frame_in_palette(memory: Seq<u8>, phase: bool, i: int)
    requires
        0 <= i < FRAME_SIZE,
    ensures
        composed_frame(memory, phase)[i] < 16,
{
}

} // verus!
